//! Directive evaluation for a markup language's layout primitives.

pub mod args;
pub mod cast;
pub mod color;
pub mod diag;
pub mod geom;
pub mod layout;
pub mod library;
pub mod paper;
pub mod style;
pub mod text;
pub mod value;
