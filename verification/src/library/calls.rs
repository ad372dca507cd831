//! What whole calls of the directives come to.

use vstd::prelude::*;
use crate::args::{
    by_name, by_position, cast_of, find_named, first_misfit, has_name, is_first_misfit,
    is_first_named, lemma_find_named, lemma_next_positional, named_only, positional, spec_all,
    Arg,
};
use crate::cast::{accepts, cast_error, lemma_cast_error_message, Cast};
use crate::diag::{occurs, spec_message, ErrorView};
use crate::geom::{Align, Dir, Linear};
use crate::layout::TrackSizing;
use crate::library::layout::{
    lemma_place_order, spec_align, spec_align_slots, spec_grid_settings, spec_stack_settings,
    AlignSlots, GridSettings, StackInput, StackSettings,
};
use crate::style::Style;
use crate::value::ValueKind;

verus! {

/// What a call with two alignments by position leaves and settles: nothing
/// is left, and the slots are those of placing the first, then the second.
#[verifier::rlimit(40)]
pub proof fn lemma_align_two(first: Arg, second: Arg)
    requires
        first.name is None,
        second.name is None,
        first.value is Align,
        second.value is Align,
    ensures
        spec_align_slots(seq![first, second]).rest == Seq::<Arg>::empty(),
        spec_align_slots(seq![first, second]).got == Ok::<AlignSlots, ErrorView>(
            (AlignSlots { horizontal: None, vertical: None }).spec_place(
                Some(first.value->Align_0),
            ).spec_place(Some(second.value->Align_0)),
        ),
{
    let items = seq![first, second];
    assert(<Align as Cast>::accepted()[0] == ValueKind::Align);
    lemma_next_positional(items, 0);
    assert(items.remove(0) =~= seq![second]);
    lemma_next_positional(seq![second], 0);
    assert(seq![second].remove(0) =~= Seq::<Arg>::empty());
}

/// `align` with a horizontal and a vertical alignment by position makes
/// the same style of a style in whichever order the two are written.
pub proof fn lemma_align_order(style: Style, a: Arg, b: Arg)
    requires
        a.name is None,
        b.name is None,
        a.value is Align,
        b.value is Align,
        a.value->Align_0.spec_axis() is Some,
        b.value->Align_0.spec_axis() is Some,
        a.value->Align_0.spec_axis() != b.value->Align_0.spec_axis(),
    ensures
        spec_align(style, seq![a, b]) == spec_align(style, seq![b, a]),
{
    lemma_align_two(a, b);
    lemma_align_two(b, a);
    lemma_place_order(
        AlignSlots { horizontal: None, vertical: None },
        a.value->Align_0,
        b.value->Align_0,
    );
}

/// No argument of a call is named `dir` where one is named `spacing` and
/// the others are given by position.
#[verifier::rlimit(40)]
proof fn lemma_no_dir(spacing: Arg, a: Arg, b: Arg)
    requires
        has_name(spacing, "spacing"@),
        a.name is None,
        b.name is None,
    ensures
        find_named(seq![spacing, a, b], "dir"@) is None,
{
    let items = seq![spacing, a, b];
    reveal_strlit("spacing");
    reveal_strlit("dir");
    assert("spacing"@.len() != "dir"@.len());
    if exists|i: int| is_first_named(items, "dir"@, i) {
        let i = choose|i: int| is_first_named(items, "dir"@, i);
        assert(has_name(items[i], "dir"@));
    }
}

/// Two pieces of content by position are taken as the two inputs of a
/// stack, and nothing is left.
#[verifier::rlimit(40)]
proof fn lemma_two_inputs(a: Arg, b: Arg)
    requires
        a.name is None,
        a.value is Node,
        b.name is None,
        b.value is Node,
    ensures
        spec_all::<StackInput>(seq![a, b]).rest == Seq::<Arg>::empty(),
        spec_all::<StackInput>(seq![a, b]).got == Ok::<Seq<StackInput>, ErrorView>(
            seq![StackInput::Any(a.value->Node_0), StackInput::Any(b.value->Node_0)],
        ),
{
    let items = seq![a, b];
    let none = Seq::<Arg>::empty();
    assert(<StackInput as Cast>::accepted()[3] == ValueKind::Node);
    assert(first_misfit::<StackInput>(items) is None) by {
        if exists|i: int| is_first_misfit::<StackInput>(items, i) {
            let i = choose|i: int| is_first_misfit::<StackInput>(items, i);
            assert(!accepts::<StackInput>(items[i].value));
        }
    }
    assert(none.filter(by_position()) =~= none && none.filter(by_name()) =~= none) by {
        reveal(Seq::filter);
    }
    none.lemma_filter_push(a, by_position());
    none.lemma_filter_push(a, by_name());
    none.push(a).lemma_filter_push(b, by_position());
    none.push(a).lemma_filter_push(b, by_name());
    assert(none.push(a).push(b) =~= items);
    assert(positional(items) =~= items);
    assert(named_only(items) =~= none);
    assert(items.map_values(cast_of::<StackInput>()) =~= seq![
        StackInput::Any(a.value->Node_0),
        StackInput::Any(b.value->Node_0),
    ]);
}

/// A call of `stack` with a default spacing by name and two pieces of
/// content by position asks for a stack from top to bottom of those two
/// pieces, and leaves no argument.
#[verifier::rlimit(40)]
pub proof fn lemma_stack_call_of_two(spacing: Arg, a: Arg, b: Arg)
    requires
        has_name(spacing, "spacing"@),
        spacing.value is Linear,
        a.name is None,
        a.value is Node,
        b.name is None,
        b.value is Node,
    ensures
        spec_stack_settings(seq![spacing, a, b]).rest == Seq::<Arg>::empty(),
        spec_stack_settings(seq![spacing, a, b]).got == Ok::<StackSettings, ErrorView>(
            StackSettings {
                dir: Dir::TTB,
                spacing: Some(spacing.value->Linear_0),
                inputs: seq![StackInput::Any(a.value->Node_0), StackInput::Any(b.value->Node_0)],
            },
        ),
{
    let items = seq![spacing, a, b];
    lemma_no_dir(spacing, a, b);
    lemma_find_named(items, "spacing"@, 0);
    assert(<Linear as Cast>::accepted()[2] == ValueKind::Linear);
    assert(items.remove(0) =~= seq![a, b]);
    lemma_two_inputs(a, b);
}

/// A call of `grid` whose only argument is `columns`, of a kind that gives
/// no tracks, fails at that argument and leaves nothing; the message says
/// what columns may be.
#[verifier::rlimit(40)]
pub proof fn lemma_grid_columns_of_wrong_kind(columns: Arg)
    requires
        has_name(columns, "columns"@),
        !accepts::<Vec<TrackSizing>>(columns.value),
    ensures
        spec_grid_settings(seq![columns]).rest == Seq::<Arg>::empty(),
        spec_grid_settings(seq![columns]).got == Err::<GridSettings, ErrorView>(
            cast_error::<Vec<TrackSizing>>(columns.value, columns.span),
        ),
        occurs(
            "integer or (auto, linear, fractional, or array thereof)"@,
            spec_message(cast_error::<Vec<TrackSizing>>(columns.value, columns.span).problem),
        ),
{
    let items = seq![columns];
    lemma_find_named(items, "columns"@, 0);
    assert(items.remove(0) =~= Seq::<Arg>::empty());
    lemma_cast_error_message::<Vec<TrackSizing>>(columns.value, columns.span);
}

} // verus!
