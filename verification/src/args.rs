//! The arguments of a call, and how directives take them out.
//!
//! Arguments are taken out one by one. What is taken leaves the list, so
//! that nothing is taken twice and what is left over can be reported.

use vstd::prelude::*;
use crate::cast::{accepts, cast_error, Cast};
use crate::diag::{Error, ErrorKind, ErrorView, Problem, Span, Spanned};
use crate::text::str_eq;
use crate::value::Value;

verus! {

/// One argument of a call.
#[derive(Debug, PartialEq, Eq)]
pub struct Arg {
    /// Where the argument was written.
    pub span: Span,
    /// The name, if the argument was given by name.
    pub name: Option<String>,
    /// The value of the argument.
    pub value: Value,
}

/// The arguments of one call, in the order in which they were written.
#[derive(Debug, PartialEq, Eq)]
pub struct Args {
    /// Where the call was written.
    pub span: Span,
    /// The arguments that have not been taken yet.
    pub items: Vec<Arg>,
}

impl View for Args {
    type V = Seq<Arg>;

    open spec fn view(&self) -> Seq<Arg> {
        self.items@
    }
}

/// What an operation took from a list of arguments, and what it left.
pub struct Taken<V> {
    pub got: V,
    pub rest: Seq<Arg>,
}

/// Whether an argument was given by position.
pub open spec fn is_positional(arg: Arg) -> bool {
    arg.name is None
}

/// Whether an argument was given under the name `key`.
pub open spec fn has_name(arg: Arg, key: Seq<char>) -> bool {
    arg.name matches Some(name) && name@ == key
}

/// Whether `i` is the place of the first positional argument.
pub open spec fn is_next_positional(items: Seq<Arg>, i: int) -> bool {
    &&& 0 <= i < items.len()
    &&& is_positional(items[i])
    &&& forall|j: int| 0 <= j < i ==> !is_positional(#[trigger] items[j])
}

/// The place of the first positional argument, if there is one.
pub open spec fn next_positional(items: Seq<Arg>) -> Option<int> {
    if exists|i: int| is_next_positional(items, i) {
        Some(choose|i: int| is_next_positional(items, i))
    } else {
        None
    }
}

/// Whether `i` is the place of the first argument named `key`.
pub open spec fn is_first_named(items: Seq<Arg>, key: Seq<char>, i: int) -> bool {
    &&& 0 <= i < items.len()
    &&& has_name(items[i], key)
    &&& forall|j: int| 0 <= j < i ==> !has_name(#[trigger] items[j], key)
}

/// The place of the first argument named `key`, if there is one.
pub open spec fn find_named(items: Seq<Arg>, key: Seq<char>) -> Option<int> {
    if exists|i: int| is_first_named(items, key, i) {
        Some(choose|i: int| is_first_named(items, key, i))
    } else {
        None
    }
}

/// Whether `i` is the place of the first positional argument that does not
/// cast to `T`.
pub open spec fn is_first_misfit<T: Cast>(items: Seq<Arg>, i: int) -> bool {
    &&& 0 <= i < items.len()
    &&& is_positional(items[i])
    &&& !accepts::<T>(items[i].value)
    &&& forall|j: int|
        0 <= j < i && is_positional(#[trigger] items[j]) ==> accepts::<T>(items[j].value)
}

/// The place of the first positional argument that does not cast to `T`,
/// if there is one.
pub open spec fn first_misfit<T: Cast>(items: Seq<Arg>) -> Option<int> {
    if exists|i: int| is_first_misfit::<T>(items, i) {
        Some(choose|i: int| is_first_misfit::<T>(items, i))
    } else {
        None
    }
}

/// The test for an argument given by position.
pub open spec fn by_position() -> spec_fn(Arg) -> bool {
    |arg: Arg| is_positional(arg)
}

/// The test for an argument given by name.
pub open spec fn by_name() -> spec_fn(Arg) -> bool {
    |arg: Arg| !is_positional(arg)
}

/// What the value of an argument casts to.
pub open spec fn cast_of<T: Cast>() -> spec_fn(Arg) -> T::V {
    |arg: Arg| T::spec_cast(arg.value)
}

/// The view of a value.
pub open spec fn view_of<T: View>() -> spec_fn(T) -> T::V {
    |out: T| out@
}

/// The arguments given by position, in order.
pub open spec fn positional(items: Seq<Arg>) -> Seq<Arg> {
    items.filter(by_position())
}

/// The arguments given by name, in order.
pub open spec fn named_only(items: Seq<Arg>) -> Seq<Arg> {
    items.filter(by_name())
}

/// Taking the argument named `key` as a `T`: the first argument of that
/// name leaves the list, whether or not it casts.
pub open spec fn spec_named<T: Cast>(items: Seq<Arg>, key: Seq<char>) -> Taken<
    Result<Option<Spanned<T::V>>, ErrorView>,
> {
    match find_named(items, key) {
        None => Taken { got: Ok(None), rest: items },
        Some(i) => Taken {
            got: if accepts::<T>(items[i].value) {
                Ok(Some(Spanned { v: T::spec_cast(items[i].value), span: items[i].span }))
            } else {
                Err(cast_error::<T>(items[i].value, items[i].span))
            },
            rest: items.remove(i),
        },
    }
}

/// Taking the next positional argument as a `T`: it leaves the list only if
/// it casts.
pub open spec fn spec_eat<T: Cast>(items: Seq<Arg>) -> Taken<Option<Spanned<T::V>>> {
    match next_positional(items) {
        Some(i) if accepts::<T>(items[i].value) => Taken {
            got: Some(Spanned { v: T::spec_cast(items[i].value), span: items[i].span }),
            rest: items.remove(i),
        },
        _ => Taken { got: None, rest: items },
    }
}

/// Taking the next positional argument as a `T` that must be there; `span`
/// is where the call was written and `what` names the argument.
pub open spec fn spec_expect<T: Cast>(items: Seq<Arg>, span: Span, what: Seq<char>) -> Taken<
    Result<T::V, ErrorView>,
> {
    let eaten = spec_eat::<T>(items);
    Taken {
        got: match eaten.got {
            Some(found) => Ok(found.v),
            None => Err(ErrorView { span, problem: Problem::MissingArgument { what } }),
        },
        rest: eaten.rest,
    }
}

/// Taking all positional arguments as `T`s. Where one does not cast, it and
/// the positional arguments before it have left the list.
pub open spec fn spec_all<T: Cast>(items: Seq<Arg>) -> Taken<Result<Seq<T::V>, ErrorView>> {
    match first_misfit::<T>(items) {
        None => Taken {
            got: Ok(positional(items).map_values(cast_of::<T>())),
            rest: named_only(items),
        },
        Some(i) => Taken {
            got: Err(cast_error::<T>(items[i].value, items[i].span)),
            rest: named_only(items.take(i)) + items.skip(i + 1),
        },
    }
}

/// Whether what an operation returned is what the model says it takes.
pub open spec fn same_taken<T: View>(out: Option<Spanned<T>>, model: Option<Spanned<T::V>>) -> bool {
    match (out, model) {
        (Some(a), Some(b)) => a.v@ == b.v && a.span == b.span,
        (None, None) => true,
        _ => false,
    }
}

/// The first positional argument is at one place only.
pub proof fn lemma_next_positional(items: Seq<Arg>, i: int)
    requires
        is_next_positional(items, i),
    ensures
        next_positional(items) == Some(i),
{
    let c = choose|c: int| is_next_positional(items, c);
    assert(is_next_positional(items, c));
    if c < i {
        assert(!is_positional(items[c]));
    }
    if i < c {
        assert(!is_positional(items[i]));
    }
}

/// The first argument of a name is at one place only.
pub proof fn lemma_find_named(items: Seq<Arg>, key: Seq<char>, i: int)
    requires
        is_first_named(items, key, i),
    ensures
        find_named(items, key) == Some(i),
{
    let c = choose|c: int| is_first_named(items, key, c);
    assert(is_first_named(items, key, c));
    if c < i {
        assert(!has_name(items[c], key));
    }
    if i < c {
        assert(!has_name(items[i], key));
    }
}

/// The first positional argument that does not cast is at one place only.
pub proof fn lemma_first_misfit<T: Cast>(items: Seq<Arg>, i: int)
    requires
        is_first_misfit::<T>(items, i),
    ensures
        first_misfit::<T>(items) == Some(i),
{
    let c = choose|c: int| is_first_misfit::<T>(items, c);
    assert(is_first_misfit::<T>(items, c));
    if c < i {
        assert(is_positional(items[c]));
    }
    if i < c {
        assert(is_positional(items[i]));
    }
}

/// Whether no name is given to two arguments.
pub open spec fn unique_names(items: Seq<Arg>) -> bool {
    forall|i: int, j: int|
        0 <= i < j < items.len() && (#[trigger] items[i]).name is Some && (
        #[trigger] items[j]).name is Some ==> items[i].name->0@ != items[j].name->0@
}

/// Taking an argument out of a list leaves the names unique.
pub proof fn lemma_remove_keeps_names(items: Seq<Arg>, i: int)
    requires
        unique_names(items),
        0 <= i < items.len(),
    ensures
        unique_names(items.remove(i)),
{
    let rest = items.remove(i);
    assert forall|a: int, b: int|
        0 <= a < b < rest.len() && (#[trigger] rest[a]).name is Some && (
        #[trigger] rest[b]).name is Some implies rest[a].name->0@ != rest[b].name->0@ by {
        let a0 = if a < i {
            a
        } else {
            a + 1
        };
        let b0 = if b < i {
            b
        } else {
            b + 1
        };
        assert(rest[a] == items[a0]);
        assert(rest[b] == items[b0]);
    }
}

/// An argument is taken by name once: where names are unique, the name
/// that was asked for is no longer in the list, and the names that are left
/// are unique.
pub proof fn lemma_named_once<T: Cast>(items: Seq<Arg>, key: Seq<char>)
    requires
        unique_names(items),
    ensures
        find_named(spec_named::<T>(items, key).rest, key) is None,
        unique_names(spec_named::<T>(items, key).rest),
{
    let rest = spec_named::<T>(items, key).rest;
    if exists|i: int| is_first_named(items, key, i) {
        let i = choose|i: int| is_first_named(items, key, i);
        lemma_remove_keeps_names(items, i);
        if exists|c: int| is_first_named(rest, key, c) {
            let c = choose|c: int| is_first_named(rest, key, c);
            let c0 = if c < i {
                c
            } else {
                c + 1
            };
            assert(rest[c] == items[c0]);
            assert(has_name(items[c0], key));
            assert(has_name(items[i], key));
            assert(false);
        }
    }
}

/// An argument is taken by position once: what `eat` takes is no longer in
/// the list, which is one shorter, and the names that are left are unique
/// if they were.
pub proof fn lemma_eat_once<T: Cast>(items: Seq<Arg>)
    ensures
        spec_eat::<T>(items).got is Some ==> spec_eat::<T>(items).rest.len() == items.len() - 1,
        spec_eat::<T>(items).got is None ==> spec_eat::<T>(items).rest == items,
        unique_names(items) ==> unique_names(spec_eat::<T>(items).rest),
{
    if exists|i: int| is_next_positional(items, i) {
        let i = choose|i: int| is_next_positional(items, i);
        if unique_names(items) {
            lemma_remove_keeps_names(items, i);
        }
    }
}

/// Where all positional arguments cast, `all` leaves none of them: what is
/// left are the arguments given by name.
pub proof fn lemma_all_leaves_no_positional<T: Cast>(items: Seq<Arg>)
    requires
        spec_all::<T>(items).got is Ok,
    ensures
        next_positional(spec_all::<T>(items).rest) is None,
        spec_all::<T>(items).got->Ok_0.len() == positional(items).len(),
{
    let rest = spec_all::<T>(items).rest;
    assert(rest == named_only(items));
    if exists|i: int| is_next_positional(rest, i) {
        let i = choose|i: int| is_next_positional(rest, i);
        items.lemma_filter_pred(by_name(), i);
        assert(false);
    }
}

impl Arg {
    /// An argument given by position.
    pub fn positional(span: Span, value: Value) -> (r: Arg)
        ensures
            r.span == span,
            r.name is None,
            r.value == value,
    {
        Arg { span, name: None, value }
    }

    /// An argument given under a name.
    pub fn named(span: Span, name: &str, value: Value) -> (r: Arg)
        ensures
            r.span == span,
            has_name(r, name@),
            r.value == value,
    {
        Arg { span, name: Some(name.to_owned()), value }
    }
}

impl Args {
    /// The arguments of a call written at `span`.
    pub fn new(span: Span, items: Vec<Arg>) -> (r: Args)
        ensures
            r.span == span,
            r.items == items,
    {
        Args { span, items }
    }

    /// The place of the first positional argument.
    fn next_positional_index(&self) -> (r: Option<usize>)
        ensures
            match r {
                Some(i) => next_positional(self@) == Some(i as int) && i < self@.len(),
                None => next_positional(self@) is None,
            },
    {
        let mut i: usize = 0;
        while i < self.items.len()
            invariant
                i <= self.items.len(),
                forall|j: int| 0 <= j < i ==> !is_positional(#[trigger] self@[j]),
            decreases self.items.len() - i,
        {
            if self.items[i].name.is_none() {
                proof {
                    lemma_next_positional(self@, i as int);
                }
                return Some(i);
            }
            i += 1;
        }
        None
    }

    /// The place of the first argument named `key`.
    fn named_index(&self, key: &str) -> (r: Option<usize>)
        ensures
            match r {
                Some(i) => find_named(self@, key@) == Some(i as int) && i < self@.len(),
                None => find_named(self@, key@) is None,
            },
    {
        let mut i: usize = 0;
        while i < self.items.len()
            invariant
                i <= self.items.len(),
                forall|j: int| 0 <= j < i ==> !has_name(#[trigger] self@[j], key@),
            decreases self.items.len() - i,
        {
            let hit = match &self.items[i].name {
                Some(name) => str_eq(name.as_str(), key),
                None => false,
            };
            if hit {
                proof {
                    lemma_find_named(self@, key@, i as int);
                }
                return Some(i);
            }
            i += 1;
        }
        None
    }

    /// Takes the argument named `key` and casts it to `T`, keeping its span.
    ///
    /// The argument leaves the list even where it does not cast.
    pub fn named_spanned<T: Cast>(&mut self, key: &str) -> (r: Result<Option<Spanned<T>>, Error>)
        ensures
            final(self).span == old(self).span,
            final(self)@ == spec_named::<T>(old(self)@, key@).rest,
            match r {
                Ok(out) => spec_named::<T>(old(self)@, key@).got matches Ok(model) && same_taken(
                    out,
                    model,
                ),
                Err(e) => spec_named::<T>(old(self)@, key@).got == Err::<
                    Option<Spanned<T::V>>,
                    ErrorView,
                >(e@),
            },
    {
        match self.named_index(key) {
            None => Ok(None),
            Some(i) => {
                let arg = self.items.remove(i);
                let Arg { span, name: _, value } = arg;
                if T::is(&value) {
                    Ok(Some(Spanned { v: T::convert(value), span }))
                } else {
                    Err(
                        Error {
                            span,
                            kind: ErrorKind::Cast {
                                expected: T::description(),
                                found: value.kind(),
                            },
                        },
                    )
                }
            },
        }
    }

    /// Takes the argument named `key` and casts it to `T`.
    ///
    /// The argument leaves the list even where it does not cast.
    pub fn named<T: Cast>(&mut self, key: &str) -> (r: Result<Option<T>, Error>)
        ensures
            final(self).span == old(self).span,
            final(self)@ == spec_named::<T>(old(self)@, key@).rest,
            match r {
                Ok(Some(out)) => spec_named::<T>(old(self)@, key@).got matches Ok(Some(model))
                    && out@ == model.v,
                Ok(None) => spec_named::<T>(old(self)@, key@).got == Ok::<
                    Option<Spanned<T::V>>,
                    ErrorView,
                >(None),
                Err(e) => spec_named::<T>(old(self)@, key@).got == Err::<
                    Option<Spanned<T::V>>,
                    ErrorView,
                >(e@),
            },
    {
        match self.named_spanned::<T>(key) {
            Ok(Some(found)) => Ok(Some(found.v)),
            Ok(None) => Ok(None),
            Err(e) => Err(e),
        }
    }

    /// Takes the next positional argument if it casts to `T`, keeping its
    /// span; leaves it where it is if it does not.
    pub fn eat_spanned<T: Cast>(&mut self) -> (r: Option<Spanned<T>>)
        ensures
            final(self).span == old(self).span,
            final(self)@ == spec_eat::<T>(old(self)@).rest,
            same_taken(r, spec_eat::<T>(old(self)@).got),
    {
        match self.next_positional_index() {
            None => None,
            Some(i) => {
                if T::is(&self.items[i].value) {
                    let arg = self.items.remove(i);
                    let Arg { span, name: _, value } = arg;
                    Some(Spanned { v: T::convert(value), span })
                } else {
                    None
                }
            },
        }
    }

    /// Takes the next positional argument if it casts to `T`; leaves it
    /// where it is if it does not.
    pub fn eat<T: Cast>(&mut self) -> (r: Option<T>)
        ensures
            final(self).span == old(self).span,
            final(self)@ == spec_eat::<T>(old(self)@).rest,
            match r {
                Some(out) => spec_eat::<T>(old(self)@).got matches Some(model) && out@ == model.v,
                None => spec_eat::<T>(old(self)@).got is None,
            },
    {
        match self.eat_spanned::<T>() {
            Some(found) => Some(found.v),
            None => None,
        }
    }

    /// Takes the next positional argument as a `T`, or reports that the
    /// argument called `what` is missing.
    pub fn expect<T: Cast>(&mut self, what: &str) -> (r: Result<T, Error>)
        ensures
            final(self).span == old(self).span,
            final(self)@ == spec_expect::<T>(old(self)@, old(self).span, what@).rest,
            match r {
                Ok(out) => spec_expect::<T>(old(self)@, old(self).span, what@).got == Ok::<
                    T::V,
                    ErrorView,
                >(out@),
                Err(e) => spec_expect::<T>(old(self)@, old(self).span, what@).got == Err::<
                    T::V,
                    ErrorView,
                >(e@),
            },
    {
        match self.eat::<T>() {
            Some(out) => Ok(out),
            None => Err(
                Error { span: self.span, kind: ErrorKind::MissingArgument { what: what.to_owned() } },
            ),
        }
    }

    /// Takes all positional arguments, in order, as `T`s.
    ///
    /// Stops at the first that does not cast: it and the positional
    /// arguments before it have then left the list.
    pub fn all<T: Cast>(&mut self) -> (r: Result<Vec<T>, Error>)
        ensures
            final(self).span == old(self).span,
            final(self)@ == spec_all::<T>(old(self)@).rest,
            match r {
                Ok(outs) => spec_all::<T>(old(self)@).got == Ok::<Seq<T::V>, ErrorView>(
                    outs@.map_values(view_of::<T>()),
                ),
                Err(e) => spec_all::<T>(old(self)@).got == Err::<Seq<T::V>, ErrorView>(e@),
            },
    {
        let ghost items = self@;
        let ghost mut seen: int = 0;
        let mut outs: Vec<T> = Vec::new();
        let mut i: usize = 0;
        proof {
            assert(items.take(0) =~= Seq::<Arg>::empty());
            reveal(Seq::filter);
            assert(self@ =~= named_only(items.take(0)) + items.skip(0));
            assert(outs@.map_values(view_of::<T>()) =~= positional(items.take(0)).map_values(
                cast_of::<T>(),
            ));
        }
        while i < self.items.len()
            invariant
                self.span == old(self).span,
                items == old(self)@,
                0 <= seen <= items.len(),
                i <= self.items.len(),
                i == named_only(items.take(seen)).len(),
                self@ == named_only(items.take(seen)) + items.skip(seen),
                forall|j: int|
                    0 <= j < seen && is_positional(#[trigger] items[j]) ==> accepts::<T>(
                        items[j].value,
                    ),
                outs@.map_values(view_of::<T>()) == positional(items.take(seen)).map_values(
                    cast_of::<T>(),
                ),
            decreases self.items.len() - i,
        {
            proof {
                assert(self@[i as int] == items.skip(seen)[0]);
                items.lemma_take_succ_push(seen);
                items.take(seen).lemma_filter_push(items[seen], by_position());
                items.take(seen).lemma_filter_push(items[seen], by_name());
            }
            if self.items[i].name.is_some() {
                proof {
                    assert(self@ =~= named_only(items.take(seen + 1)) + items.skip(seen + 1));
                    seen = seen + 1;
                }
                i += 1;
            } else {
                let arg = self.items.remove(i);
                let Arg { span, name: _, value } = arg;
                proof {
                    assert(self@ =~= named_only(items.take(seen + 1)) + items.skip(seen + 1));
                }
                if T::is(&value) {
                    let out = T::convert(value);
                    proof {
                        outs@.lemma_push_map_commute(view_of::<T>(), out);
                        positional(items.take(seen)).lemma_push_map_commute(
                            cast_of::<T>(),
                            items[seen],
                        );
                        seen = seen + 1;
                    }
                    outs.push(out);
                } else {
                    proof {
                        lemma_first_misfit::<T>(items, seen);
                    }
                    return Err(
                        Error {
                            span,
                            kind: ErrorKind::Cast {
                                expected: T::description(),
                                found: value.kind(),
                            },
                        },
                    );
                }
            }
        }
        proof {
            assert(items.skip(seen) =~= Seq::<Arg>::empty());
            assert(items.take(seen) =~= items);
            assert(self@ =~= named_only(items));
            if exists|k: int| is_first_misfit::<T>(items, k) {
                let k = choose|k: int| is_first_misfit::<T>(items, k);
                assert(is_positional(items[k]));
            }
        }
        Ok(outs)
    }
}

} // verus!
