//! The directives.

pub mod calls;
pub mod layout;
