//! Source positions and the errors that directives report.

use vstd::prelude::*;
use vstd::string::StringExecFns;
use crate::value::ValueKind;

verus! {

/// A range of positions in the source text.
#[derive(Clone, Copy, Debug, PartialEq, Eq, Structural)]
pub struct Span {
    pub start: usize,
    pub end: usize,
}

impl Span {
    /// The span from `start` to `end`.
    pub fn new(start: usize, end: usize) -> (r: Span)
        ensures
            r == (Span { start, end }),
    {
        Span { start, end }
    }
}

/// A value together with the place it was written at.
#[derive(Debug, PartialEq, Eq)]
pub struct Spanned<T> {
    pub v: T,
    pub span: Span,
}

impl<T> Spanned<T> {
    /// A value with its span.
    pub fn new(v: T, span: Span) -> (r: Spanned<T>)
        ensures
            r.v == v,
            r.span == span,
    {
        Spanned { v, span }
    }
}

/// What went wrong.
#[derive(Debug, PartialEq, Eq)]
pub enum ErrorKind {
    /// A value was of a kind that its place does not accept; `expected`
    /// describes what the place accepts.
    Cast { expected: &'static str, found: ValueKind },
    /// A required argument was not given.
    MissingArgument { what: String },
    /// A string that should name a paper size names none.
    InvalidPaperName,
}

/// An error, with the place in the source it is about.
#[derive(Debug, PartialEq, Eq)]
pub struct Error {
    pub span: Span,
    pub kind: ErrorKind,
}

/// What went wrong, as mathematical values.
pub enum Problem {
    Cast { expected: Seq<char>, found: ValueKind },
    MissingArgument { what: Seq<char> },
    InvalidPaperName,
}

/// An error as mathematical values.
pub struct ErrorView {
    pub span: Span,
    pub problem: Problem,
}

impl View for ErrorKind {
    type V = Problem;

    open spec fn view(&self) -> Problem {
        match *self {
            ErrorKind::Cast { expected, found } => Problem::Cast { expected: expected@, found },
            ErrorKind::MissingArgument { what } => Problem::MissingArgument { what: what@ },
            ErrorKind::InvalidPaperName => Problem::InvalidPaperName,
        }
    }
}

impl View for Error {
    type V = ErrorView;

    open spec fn view(&self) -> ErrorView {
        ErrorView { span: self.span, problem: self.kind@ }
    }
}

/// The result of evaluating a directive.
pub type TypResult<T> = Result<T, Error>;

/// The message of an error.
pub open spec fn spec_message(problem: Problem) -> Seq<char> {
    match problem {
        Problem::Cast { expected, found } => "expected "@ + expected + ", found "@
            + found.spec_name(),
        Problem::MissingArgument { what } => "missing required argument `"@ + what + "`"@,
        Problem::InvalidPaperName => "invalid paper name"@,
    }
}

/// Whether `part` stands somewhere in `whole`, character for character.
pub open spec fn occurs(part: Seq<char>, whole: Seq<char>) -> bool {
    exists|at: int|
        0 <= at && at + part.len() <= whole.len() && #[trigger] whole.subrange(
            at,
            at + part.len(),
        ) == part
}

/// What stands in a text stands in the text with more before and after it.
pub proof fn lemma_occurs_within(part: Seq<char>, before: Seq<char>, whole: Seq<char>, after: Seq<char>)
    requires
        occurs(part, whole),
    ensures
        occurs(part, before + whole + after),
{
    let at = choose|at: int|
        0 <= at && at + part.len() <= whole.len() && #[trigger] whole.subrange(
            at,
            at + part.len(),
        ) == part;
    let all = before + whole + after;
    let start = before.len() + at;
    assert(all.subrange(start, start + part.len()) =~= part);
}

/// What stands at a place in a text stands in the text.
pub proof fn lemma_occurs_at(part: Seq<char>, whole: Seq<char>, at: int)
    requires
        0 <= at,
        at + part.len() <= whole.len(),
        whole.subrange(at, at + part.len()) == part,
    ensures
        occurs(part, whole),
{
}

/// A text stands in itself.
pub proof fn lemma_occurs_whole(part: Seq<char>)
    ensures
        occurs(part, part),
{
    assert(part.subrange(0int, 0int + part.len()) =~= part);
}

/// Whether a text names a kind of value: by the kind's own name, or, for a
/// length or a share, by the name of the linear values that both widen to.
pub open spec fn names_kind(text: Seq<char>, kind: ValueKind) -> bool {
    ||| occurs(kind.spec_name(), text)
    ||| (kind == ValueKind::Length || kind == ValueKind::Relative) && occurs(
        ValueKind::Linear.spec_name(),
        text,
    )
}

/// The message of a value of the wrong kind holds the description of what
/// was expected and the name of the kind that was found.
pub proof fn lemma_cast_message_holds(expected: Seq<char>, found: ValueKind)
    ensures
        occurs(expected, spec_message(Problem::Cast { expected, found })),
        occurs(found.spec_name(), spec_message(Problem::Cast { expected, found })),
{
    let message = spec_message(Problem::Cast { expected, found });
    let after = ", found "@ + found.spec_name();
    assert("expected "@ + expected + after =~= message);
    lemma_occurs_whole(expected);
    lemma_occurs_within(expected, "expected "@, expected, after);
    lemma_occurs_whole(found.spec_name());
    lemma_occurs_within(
        found.spec_name(),
        "expected "@ + expected + ", found "@,
        found.spec_name(),
        Seq::empty(),
    );
    assert("expected "@ + expected + ", found "@ + found.spec_name() + Seq::<char>::empty()
        =~= message);
}

/// The message of a value of the wrong kind names every kind that the
/// description of what was expected names.
pub proof fn lemma_cast_message_names(expected: Seq<char>, found: ValueKind, kind: ValueKind)
    requires
        names_kind(expected, kind),
    ensures
        names_kind(spec_message(Problem::Cast { expected, found }), kind),
{
    let message = spec_message(Problem::Cast { expected, found });
    let after = ", found "@ + found.spec_name();
    assert("expected "@ + expected + after =~= message);
    if occurs(kind.spec_name(), expected) {
        lemma_occurs_within(kind.spec_name(), "expected "@, expected, after);
    } else {
        lemma_occurs_within(ValueKind::Linear.spec_name(), "expected "@, expected, after);
    }
}

impl Error {
    /// The message of the error, for a reader.
    pub fn message(&self) -> (text: String)
        ensures
            text@ == spec_message(self@.problem),
    {
        match &self.kind {
            ErrorKind::Cast { expected, found } => {
                let mut text = String::from_str("expected ");
                text.append(expected);
                text.append(", found ");
                text.append(found.name());
                text
            },
            ErrorKind::MissingArgument { what } => {
                let mut text = String::from_str("missing required argument `");
                text.append(what.as_str());
                text.append("`");
                text
            },
            ErrorKind::InvalidPaperName => String::from_str("invalid paper name"),
        }
    }
}

} // verus!
