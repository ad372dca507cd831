use typst::args::{Arg, Args};
use typst::diag::{Error, ErrorKind, Span};
use typst::geom::{Align, Dir, Length, Linear, Relative};
use typst::layout::{Node, PackedNode, PadNode, StackChild, StackNode};
use typst::geom::Sides;
use typst::library::layout::{stack, stack_children, StackInput};
use typst::style::{EvalContext, Style};
use typst::value::{Value, ValueKind};

fn stack_call(items: Vec<Arg>) -> Args {
    Args::new(Span::new(0, 60), items)
}

fn here(n: usize) -> Span {
    Span::new(n, n + 4)
}

fn words(s: &str) -> Node {
    Node::Text(s.to_string())
}

fn content(n: usize, s: &str) -> Arg {
    Arg::positional(here(n), Value::Node(words(s)))
}

fn lin(n: i32) -> Linear {
    Linear::from_length(Length::pt(n))
}

fn flowed(s: &str, style: Style) -> StackChild {
    StackChild::Any(PackedNode::Flow(Box::new(words(s)), style), style.par.align)
}

fn stacked(dir: Dir, children: Vec<StackChild>) -> Value {
    Value::Node(Node::Block(PackedNode::Stack(StackNode { dir, children })))
}

#[test]
fn stack_puts_the_default_spacing_between_two_children() {
    let style = Style::default();
    let mut ctx = EvalContext::new(style);
    let mut args = stack_call(vec![
        content(1, "A"),
        content(2, "B"),
        Arg::named(here(3), "spacing", Value::Length(Length::pt(8))),
    ]);
    let out = stack(&mut ctx, &mut args);
    assert_eq!(
        out,
        Ok(stacked(
            Dir::TTB,
            vec![flowed("A", style), StackChild::Spacing(lin(8)), flowed("B", style)]
        ))
    );
    assert!(args.items.is_empty());
    assert_eq!(ctx.style, style);
}

#[test]
fn stack_lets_written_spacing_take_the_place_of_the_default() {
    let style = Style::default();
    let mut ctx = EvalContext::new(style);
    let mut args = stack_call(vec![
        Arg::named(here(0), "spacing", Value::Length(Length::pt(8))),
        content(1, "A"),
        Arg::positional(here(2), Value::Length(Length::pt(3))),
        content(3, "B"),
    ]);
    let out = stack(&mut ctx, &mut args);
    assert_eq!(
        out,
        Ok(stacked(
            Dir::TTB,
            vec![flowed("A", style), StackChild::Spacing(lin(3)), flowed("B", style)]
        ))
    );
}

#[test]
fn stack_without_default_spacing_adds_none() {
    let style = Style::default();
    let mut ctx = EvalContext::new(style);
    let mut args = stack_call(vec![content(1, "A"), content(2, "B"), content(3, "C")]);
    let out = stack(&mut ctx, &mut args);
    assert_eq!(
        out,
        Ok(stacked(Dir::TTB, vec![flowed("A", style), flowed("B", style), flowed("C", style)]))
    );
}

#[test]
fn stack_of_nothing_is_empty() {
    let mut ctx = EvalContext::new(Style::default());
    let mut args = stack_call(vec![Arg::named(here(0), "spacing", Value::Length(Length::pt(8)))]);
    assert_eq!(stack(&mut ctx, &mut args), Ok(stacked(Dir::TTB, vec![])));
}

#[test]
fn stack_of_one_child_has_no_spacing() {
    let style = Style::default();
    let mut ctx = EvalContext::new(style);
    let mut args = stack_call(vec![
        Arg::named(here(0), "spacing", Value::Length(Length::pt(8))),
        content(1, "A"),
    ]);
    assert_eq!(stack(&mut ctx, &mut args), Ok(stacked(Dir::TTB, vec![flowed("A", style)])));
}

#[test]
fn stack_takes_its_direction() {
    let mut ctx = EvalContext::new(Style::default());
    for dir in [Dir::LTR, Dir::RTL, Dir::TTB, Dir::BTT] {
        let mut args = stack_call(vec![Arg::named(here(0), "dir", Value::Dir(dir))]);
        assert_eq!(stack(&mut ctx, &mut args), Ok(stacked(dir, vec![])));
    }
}

#[test]
fn stack_takes_shares_and_linear_values_as_spacing() {
    let style = Style::default();
    let mut ctx = EvalContext::new(style);
    let both = Linear::new(Relative::percent(10), Length::pt(2));
    let mut args = stack_call(vec![
        Arg::named(here(0), "spacing", Value::Relative(Relative::percent(5))),
        Arg::positional(here(1), Value::Relative(Relative::percent(50))),
        content(2, "A"),
        content(3, "B"),
        Arg::positional(here(4), Value::Linear(both)),
    ]);
    assert_eq!(
        stack(&mut ctx, &mut args),
        Ok(stacked(
            Dir::TTB,
            vec![
                StackChild::Spacing(Linear::from_relative(Relative::percent(50))),
                flowed("A", style),
                StackChild::Spacing(Linear::from_relative(Relative::percent(5))),
                flowed("B", style),
                StackChild::Spacing(both),
            ]
        ))
    );
}

#[test]
fn stack_children_follow_the_rule_of_the_pending_spacing() {
    let style = Style::default();
    let inputs = vec![
        StackInput::Spacing(lin(1)),
        StackInput::Spacing(lin(2)),
        StackInput::Any(words("A")),
        StackInput::Any(words("B")),
        StackInput::Spacing(lin(3)),
        StackInput::Spacing(lin(4)),
        StackInput::Any(words("C")),
        StackInput::Any(words("D")),
        StackInput::Any(words("E")),
        StackInput::Spacing(lin(5)),
    ];
    assert_eq!(
        stack_children(inputs, Some(lin(9)), &style),
        vec![
            StackChild::Spacing(lin(1)),
            StackChild::Spacing(lin(2)),
            flowed("A", style),
            StackChild::Spacing(lin(9)),
            flowed("B", style),
            StackChild::Spacing(lin(3)),
            StackChild::Spacing(lin(4)),
            flowed("C", style),
            StackChild::Spacing(lin(9)),
            flowed("D", style),
            StackChild::Spacing(lin(9)),
            flowed("E", style),
            StackChild::Spacing(lin(5)),
        ]
    );
    assert_eq!(stack_children(vec![], Some(lin(9)), &style), vec![]);
}

#[test]
fn stack_children_never_begin_or_end_with_the_default_spacing() {
    let style = Style::default();
    for n in 1..6usize {
        let inputs: Vec<StackInput> =
            (0..n).map(|i| StackInput::Any(words(&format!("{}", i)))).collect();
        let children = stack_children(inputs, Some(lin(9)), &style);
        assert_eq!(children.len(), 2 * n - 1);
        assert_eq!(children[0], flowed("0", style));
        assert_eq!(children[2 * n - 2], flowed(&format!("{}", n - 1), style));
        for (i, child) in children.iter().enumerate() {
            if i % 2 == 1 {
                assert_eq!(*child, StackChild::Spacing(lin(9)));
            } else {
                assert_eq!(*child, flowed(&format!("{}", i / 2), style));
            }
        }
    }
}

#[test]
fn stack_children_take_the_alignment_in_force() {
    let mut style = Style::default();
    style.par.align = Align::Bottom;
    let mut ctx = EvalContext::new(style);
    let mut args = stack_call(vec![content(1, "A")]);
    let out = stack(&mut ctx, &mut args);
    assert_eq!(
        out,
        Ok(stacked(
            Dir::TTB,
            vec![StackChild::Any(PackedNode::Flow(Box::new(words("A")), style), Align::Bottom)]
        ))
    );
    ctx.style.par.align = Align::Center;
    assert_eq!(
        out,
        Ok(stacked(
            Dir::TTB,
            vec![StackChild::Any(PackedNode::Flow(Box::new(words("A")), style), Align::Bottom)]
        ))
    );
}

#[test]
fn stack_keeps_blocks_as_they_are() {
    let style = Style::default();
    let inner = PackedNode::Pad(Box::new(PadNode {
        padding: Sides::splat(lin(1)),
        child: PackedNode::Flow(Box::new(words("in")), style),
    }));
    let again = PackedNode::Pad(Box::new(PadNode {
        padding: Sides::splat(lin(1)),
        child: PackedNode::Flow(Box::new(words("in")), style),
    }));
    let children = stack_children(vec![StackInput::Any(Node::Block(inner))], None, &style);
    assert_eq!(children, vec![StackChild::Any(again, style.par.align)]);
}

#[test]
fn stack_rejects_a_child_of_the_wrong_kind() {
    let style = Style::default();
    let mut ctx = EvalContext::new(style);
    let mut args = stack_call(vec![
        content(1, "A"),
        Arg::positional(here(2), Value::Int(3)),
        content(3, "B"),
    ]);
    assert_eq!(
        stack(&mut ctx, &mut args),
        Err(Error {
            span: here(2),
            kind: ErrorKind::Cast {
                expected: "linear or template",
                found: ValueKind::Int,
            },
        })
    );
    assert_eq!(args.items, vec![content(3, "B")]);
    assert_eq!(ctx.style, style);
}

#[test]
fn stack_rejects_a_direction_or_spacing_of_the_wrong_kind() {
    let mut ctx = EvalContext::new(Style::default());
    let mut args = stack_call(vec![
        content(1, "A"),
        Arg::named(here(2), "dir", Value::Align(Align::Left)),
    ]);
    assert_eq!(
        stack(&mut ctx, &mut args),
        Err(Error {
            span: here(2),
            kind: ErrorKind::Cast { expected: "direction", found: ValueKind::Align },
        })
    );
    assert_eq!(args.items, vec![content(1, "A")]);
    let mut args = stack_call(vec![
        content(1, "A"),
        Arg::named(here(2), "spacing", Value::Fractional(typst::geom::Fractional::fr(1))),
    ]);
    assert_eq!(
        stack(&mut ctx, &mut args),
        Err(Error {
            span: here(2),
            kind: ErrorKind::Cast {
                expected: "linear",
                found: ValueKind::Fractional,
            },
        })
    );
}
