//! Casting of values to the types that directives work with.

use vstd::prelude::*;
use crate::color::Color;
use crate::diag::{
    lemma_cast_message_holds, lemma_cast_message_names, lemma_occurs_whole, names_kind, occurs,
    spec_message, Error, ErrorKind, ErrorView, Problem, Span,
};
use crate::geom::{Align, Dir, Length, Linear};
use crate::layout::Node;
use crate::value::{Value, ValueKind};

verus! {

/// A type that values of some kinds can be cast to.
///
/// Whether a value can be cast depends on its kind alone.
pub trait Cast: Sized + View {
    /// The kinds of value that cast to this type, one for each rule, in
    /// the order of the rules.
    spec fn accepted() -> Seq<ValueKind>;

    /// How a message describes what is accepted.
    spec fn described() -> Seq<char>;

    /// What a value of an accepted kind casts to.
    spec fn spec_cast(value: Value) -> Self::V;

    /// Whether the value is of an accepted kind.
    fn is(value: &Value) -> (b: bool)
        ensures
            b == Self::accepted().contains(value.spec_kind()),
    ;

    /// The description of what is accepted, for a message.
    fn description() -> (text: &'static str)
        ensures
            text@ == Self::described(),
    ;

    /// The description names every accepted kind.
    proof fn lemma_described(k: int)
        requires
            0 <= k < Self::accepted().len(),
        ensures
            names_kind(Self::described(), Self::accepted()[k]),
    ;

    /// Casts a value of an accepted kind.
    fn convert(value: Value) -> (out: Self)
        requires
            Self::accepted().contains(value.spec_kind()),
        ensures
            out@ == Self::spec_cast(value),
    ;
}

/// Whether a value is of a kind that casts to `T`.
pub open spec fn accepts<T: Cast>(value: Value) -> bool {
    T::accepted().contains(value.spec_kind())
}

/// The error for a value at `span` that does not cast to `T`.
pub open spec fn cast_error<T: Cast>(value: Value, span: Span) -> ErrorView {
    ErrorView { span, problem: Problem::Cast { expected: T::described(), found: value.spec_kind() } }
}

/// Casts a value written at `span` to `T`, or says which kinds `T` accepts.
pub fn cast<T: Cast>(value: Value, span: Span) -> (r: Result<T, Error>)
    ensures
        match r {
            Ok(out) => accepts::<T>(value) && out@ == T::spec_cast(value),
            Err(e) => !accepts::<T>(value) && e@ == cast_error::<T>(value, span),
        },
{
    if T::is(&value) {
        Ok(T::convert(value))
    } else {
        Err(Error { span, kind: ErrorKind::Cast { expected: T::description(), found: value.kind() } })
    }
}

/// The message for a value that does not cast to `T` holds the description
/// of `T` and the name of the value's kind.
pub proof fn lemma_cast_error_message<T: Cast>(value: Value, span: Span)
    ensures
        spec_message(cast_error::<T>(value, span).problem) == "expected "@ + T::described()
            + ", found "@ + value.spec_kind().spec_name(),
        occurs(T::described(), spec_message(cast_error::<T>(value, span).problem)),
        occurs(value.spec_kind().spec_name(), spec_message(cast_error::<T>(value, span).problem)),
{
    lemma_cast_message_holds(T::described(), value.spec_kind());
}

/// The message for a value that does not cast to `T` names each kind that
/// `T` accepts.
pub proof fn lemma_cast_error_names_accepted<T: Cast>(value: Value, span: Span, kind: ValueKind)
    requires
        T::accepted().contains(kind),
    ensures
        names_kind(spec_message(cast_error::<T>(value, span).problem), kind),
{
    let k = choose|k: int| 0 <= k < T::accepted().len() && T::accepted()[k] == kind;
    T::lemma_described(k);
    lemma_cast_message_names(T::described(), value.spec_kind(), kind);
}

impl Cast for bool {
    open spec fn accepted() -> Seq<ValueKind> {
        seq![ValueKind::Bool]
    }

    open spec fn described() -> Seq<char> {
        "boolean"@
    }

    open spec fn spec_cast(value: Value) -> bool {
        value->Bool_0
    }

    fn is(value: &Value) -> (b: bool) {
        assert(Self::accepted()[0] == ValueKind::Bool);
        match value {
            Value::Bool(_) => true,
            _ => false,
        }
    }

    fn description() -> (text: &'static str) {
        "boolean"
    }

    proof fn lemma_described(k: int) {
        lemma_occurs_whole(Self::described());
    }

    fn convert(value: Value) -> (out: bool) {
        match value {
            Value::Bool(b) => b,
            _ => unreached(),
        }
    }
}

impl Cast for String {
    open spec fn accepted() -> Seq<ValueKind> {
        seq![ValueKind::Str]
    }

    open spec fn described() -> Seq<char> {
        "string"@
    }

    open spec fn spec_cast(value: Value) -> Seq<char> {
        value->Str_0@
    }

    fn is(value: &Value) -> (b: bool) {
        assert(Self::accepted()[0] == ValueKind::Str);
        match value {
            Value::Str(_) => true,
            _ => false,
        }
    }

    fn description() -> (text: &'static str) {
        "string"
    }

    proof fn lemma_described(k: int) {
        lemma_occurs_whole(Self::described());
    }

    fn convert(value: Value) -> (out: String) {
        match value {
            Value::Str(s) => s,
            _ => unreached(),
        }
    }
}

impl Cast for Length {
    open spec fn accepted() -> Seq<ValueKind> {
        seq![ValueKind::Length]
    }

    open spec fn described() -> Seq<char> {
        "length"@
    }

    open spec fn spec_cast(value: Value) -> Length {
        value->Length_0
    }

    fn is(value: &Value) -> (b: bool) {
        assert(Self::accepted()[0] == ValueKind::Length);
        match value {
            Value::Length(_) => true,
            _ => false,
        }
    }

    fn description() -> (text: &'static str) {
        "length"
    }

    proof fn lemma_described(k: int) {
        lemma_occurs_whole(Self::described());
    }

    fn convert(value: Value) -> (out: Length) {
        match value {
            Value::Length(v) => v,
            _ => unreached(),
        }
    }
}

impl Cast for Linear {
    open spec fn accepted() -> Seq<ValueKind> {
        seq![ValueKind::Length, ValueKind::Relative, ValueKind::Linear]
    }

    open spec fn described() -> Seq<char> {
        "linear"@
    }

    open spec fn spec_cast(value: Value) -> Linear {
        match value {
            Value::Length(v) => Linear::spec_from_length(v),
            Value::Relative(v) => Linear::spec_from_relative(v),
            Value::Linear(v) => v,
            _ => Linear::spec_zero(),
        }
    }

    fn is(value: &Value) -> (b: bool) {
        assert(Self::accepted()[0] == ValueKind::Length);
        assert(Self::accepted()[1] == ValueKind::Relative);
        assert(Self::accepted()[2] == ValueKind::Linear);
        match value {
            Value::Length(_) => true,
            Value::Relative(_) => true,
            Value::Linear(_) => true,
            _ => false,
        }
    }

    fn description() -> (text: &'static str) {
        "linear"
    }

    proof fn lemma_described(k: int) {
        lemma_occurs_whole(Self::described());
    }

    fn convert(value: Value) -> (out: Linear) {
        match value {
            Value::Length(v) => Linear::from_length(v),
            Value::Relative(v) => Linear::from_relative(v),
            Value::Linear(v) => v,
            _ => unreached(),
        }
    }
}

impl Cast for Align {
    open spec fn accepted() -> Seq<ValueKind> {
        seq![ValueKind::Align]
    }

    open spec fn described() -> Seq<char> {
        "alignment"@
    }

    open spec fn spec_cast(value: Value) -> Align {
        value->Align_0
    }

    fn is(value: &Value) -> (b: bool) {
        assert(Self::accepted()[0] == ValueKind::Align);
        match value {
            Value::Align(_) => true,
            _ => false,
        }
    }

    fn description() -> (text: &'static str) {
        "alignment"
    }

    proof fn lemma_described(k: int) {
        lemma_occurs_whole(Self::described());
    }

    fn convert(value: Value) -> (out: Align) {
        match value {
            Value::Align(v) => v,
            _ => unreached(),
        }
    }
}

impl Cast for Dir {
    open spec fn accepted() -> Seq<ValueKind> {
        seq![ValueKind::Dir]
    }

    open spec fn described() -> Seq<char> {
        "direction"@
    }

    open spec fn spec_cast(value: Value) -> Dir {
        value->Dir_0
    }

    fn is(value: &Value) -> (b: bool) {
        assert(Self::accepted()[0] == ValueKind::Dir);
        match value {
            Value::Dir(_) => true,
            _ => false,
        }
    }

    fn description() -> (text: &'static str) {
        "direction"
    }

    proof fn lemma_described(k: int) {
        lemma_occurs_whole(Self::described());
    }

    fn convert(value: Value) -> (out: Dir) {
        match value {
            Value::Dir(v) => v,
            _ => unreached(),
        }
    }
}

impl Cast for Color {
    open spec fn accepted() -> Seq<ValueKind> {
        seq![ValueKind::Color]
    }

    open spec fn described() -> Seq<char> {
        "color"@
    }

    open spec fn spec_cast(value: Value) -> Color {
        value->Color_0
    }

    fn is(value: &Value) -> (b: bool) {
        assert(Self::accepted()[0] == ValueKind::Color);
        match value {
            Value::Color(_) => true,
            _ => false,
        }
    }

    fn description() -> (text: &'static str) {
        "color"
    }

    proof fn lemma_described(k: int) {
        lemma_occurs_whole(Self::described());
    }

    fn convert(value: Value) -> (out: Color) {
        match value {
            Value::Color(v) => v,
            _ => unreached(),
        }
    }
}

impl Cast for Node {
    open spec fn accepted() -> Seq<ValueKind> {
        seq![ValueKind::Node]
    }

    open spec fn described() -> Seq<char> {
        "template"@
    }

    open spec fn spec_cast(value: Value) -> Node {
        value->Node_0
    }

    fn is(value: &Value) -> (b: bool) {
        assert(Self::accepted()[0] == ValueKind::Node);
        match value {
            Value::Node(_) => true,
            _ => false,
        }
    }

    fn description() -> (text: &'static str) {
        "template"
    }

    proof fn lemma_described(k: int) {
        lemma_occurs_whole(Self::described());
    }

    fn convert(value: Value) -> (out: Node) {
        match value {
            Value::Node(v) => v,
            _ => unreached(),
        }
    }
}

} // verus!
