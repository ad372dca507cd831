//! The values that arguments of a directive hold.

use vstd::prelude::*;
use crate::color::Color;
use crate::geom::{Align, Dir, Fractional, Length, Linear, Relative};
use crate::layout::Node;

verus! {

/// A value of the markup language.
#[derive(Debug, PartialEq, Eq)]
pub enum Value {
    /// The absence of a value.
    Nothing,
    /// A value that asks for a sensible default.
    Auto,
    /// A boolean.
    Bool(bool),
    /// An integer.
    Int(i64),
    /// A number with a fractional part, as the bits of its binary64 form.
    Float(u64),
    /// An absolute length.
    Length(Length),
    /// A share of a reference extent.
    Relative(Relative),
    /// A share plus a length.
    Linear(Linear),
    /// A weight for leftover space.
    Fractional(Fractional),
    /// A string.
    Str(String),
    /// An array of values.
    Array(Vec<Value>),
    /// A piece of content.
    Node(Node),
    /// An alignment.
    Align(Align),
    /// A direction.
    Dir(Dir),
    /// A color.
    Color(Color),
}

/// The kind of a value: which of the variants it is.
#[derive(Clone, Copy, Debug, PartialEq, Eq, Structural)]
pub enum ValueKind {
    Nothing,
    Auto,
    Bool,
    Int,
    Float,
    Length,
    Relative,
    Linear,
    Fractional,
    Str,
    Array,
    Node,
    Align,
    Dir,
    Color,
}

impl ValueKind {
    /// The name under which a kind appears in messages.
    pub open spec fn spec_name(self) -> Seq<char> {
        match self {
            ValueKind::Nothing => "none"@,
            ValueKind::Auto => "auto"@,
            ValueKind::Bool => "boolean"@,
            ValueKind::Int => "integer"@,
            ValueKind::Float => "float"@,
            ValueKind::Length => "length"@,
            ValueKind::Relative => "relative"@,
            ValueKind::Linear => "linear"@,
            ValueKind::Fractional => "fractional"@,
            ValueKind::Str => "string"@,
            ValueKind::Array => "array"@,
            ValueKind::Node => "template"@,
            ValueKind::Align => "alignment"@,
            ValueKind::Dir => "direction"@,
            ValueKind::Color => "color"@,
        }
    }

    /// The name under which a kind appears in messages.
    pub fn name(self) -> (r: &'static str)
        ensures
            r@ == self.spec_name(),
    {
        match self {
            ValueKind::Nothing => "none",
            ValueKind::Auto => "auto",
            ValueKind::Bool => "boolean",
            ValueKind::Int => "integer",
            ValueKind::Float => "float",
            ValueKind::Length => "length",
            ValueKind::Relative => "relative",
            ValueKind::Linear => "linear",
            ValueKind::Fractional => "fractional",
            ValueKind::Str => "string",
            ValueKind::Array => "array",
            ValueKind::Node => "template",
            ValueKind::Align => "alignment",
            ValueKind::Dir => "direction",
            ValueKind::Color => "color",
        }
    }
}

impl Value {
    /// The kind of a value.
    pub open spec fn spec_kind(&self) -> ValueKind {
        match *self {
            Value::Nothing => ValueKind::Nothing,
            Value::Auto => ValueKind::Auto,
            Value::Bool(_) => ValueKind::Bool,
            Value::Int(_) => ValueKind::Int,
            Value::Float(_) => ValueKind::Float,
            Value::Length(_) => ValueKind::Length,
            Value::Relative(_) => ValueKind::Relative,
            Value::Linear(_) => ValueKind::Linear,
            Value::Fractional(_) => ValueKind::Fractional,
            Value::Str(_) => ValueKind::Str,
            Value::Array(_) => ValueKind::Array,
            Value::Node(_) => ValueKind::Node,
            Value::Align(_) => ValueKind::Align,
            Value::Dir(_) => ValueKind::Dir,
            Value::Color(_) => ValueKind::Color,
        }
    }

    /// The kind of a value.
    #[verifier::when_used_as_spec(spec_kind)]
    pub fn kind(&self) -> (r: ValueKind)
        ensures
            r == self.spec_kind(),
    {
        match self {
            Value::Nothing => ValueKind::Nothing,
            Value::Auto => ValueKind::Auto,
            Value::Bool(_) => ValueKind::Bool,
            Value::Int(_) => ValueKind::Int,
            Value::Float(_) => ValueKind::Float,
            Value::Length(_) => ValueKind::Length,
            Value::Relative(_) => ValueKind::Relative,
            Value::Linear(_) => ValueKind::Linear,
            Value::Fractional(_) => ValueKind::Fractional,
            Value::Str(_) => ValueKind::Str,
            Value::Array(_) => ValueKind::Array,
            Value::Node(_) => ValueKind::Node,
            Value::Align(_) => ValueKind::Align,
            Value::Dir(_) => ValueKind::Dir,
            Value::Color(_) => ValueKind::Color,
        }
    }
}

} // verus!
