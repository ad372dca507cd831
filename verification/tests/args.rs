use typst::args::{Arg, Args};
use typst::diag::{Error, ErrorKind, Span, Spanned};
use typst::geom::{Align, Length, Linear, Relative};
use typst::layout::Node;
use typst::value::{Value, ValueKind};

fn call(items: Vec<Arg>) -> Args {
    Args::new(Span::new(0, 100), items)
}

fn at(n: usize) -> Span {
    Span::new(n, n + 1)
}

#[test]
fn arguments_are_built_as_written() {
    let pos = Arg::positional(at(1), Value::Int(1));
    assert_eq!(pos, Arg { span: at(1), name: None, value: Value::Int(1) });
    let named = Arg::named(at(2), "width", Value::Int(2));
    assert_eq!(named, Arg { span: at(2), name: Some("width".to_string()), value: Value::Int(2) });
    let args = call(vec![pos, named]);
    assert_eq!(args.span, Span::new(0, 100));
    assert_eq!(args.items.len(), 2);
}

#[test]
fn named_takes_the_argument_of_that_name() {
    let mut args = call(vec![
        Arg::positional(at(1), Value::Length(Length::pt(1))),
        Arg::named(at(2), "height", Value::Length(Length::pt(2))),
        Arg::named(at(3), "width", Value::Length(Length::pt(3))),
    ]);
    assert_eq!(args.named::<Length>("width"), Ok(Some(Length::pt(3))));
    assert_eq!(
        args.items,
        vec![
            Arg::positional(at(1), Value::Length(Length::pt(1))),
            Arg::named(at(2), "height", Value::Length(Length::pt(2))),
        ]
    );
    assert_eq!(args.span, Span::new(0, 100));
}

#[test]
fn named_returns_nothing_for_a_name_not_given() {
    let mut args = call(vec![
        Arg::positional(at(1), Value::Length(Length::pt(1))),
        Arg::named(at(2), "height", Value::Length(Length::pt(2))),
    ]);
    assert_eq!(args.named::<Length>("width"), Ok(None));
    assert_eq!(args.named::<Length>("heigh"), Ok(None));
    assert_eq!(args.named::<Length>("height "), Ok(None));
    assert_eq!(args.items.len(), 2);
    let mut empty = call(vec![]);
    assert_eq!(empty.named::<Length>("width"), Ok(None));
}

#[test]
fn named_fails_on_the_wrong_kind_and_still_takes_the_argument() {
    let mut args = call(vec![
        Arg::named(at(2), "width", Value::Str("wide".to_string())),
        Arg::named(at(3), "height", Value::Length(Length::pt(3))),
    ]);
    assert_eq!(
        args.named::<Length>("width"),
        Err(Error {
            span: at(2),
            kind: ErrorKind::Cast { expected: "length", found: ValueKind::Str },
        })
    );
    assert_eq!(args.items, vec![Arg::named(at(3), "height", Value::Length(Length::pt(3)))]);
}

#[test]
fn named_is_taken_once() {
    let mut args = call(vec![Arg::named(at(2), "width", Value::Length(Length::pt(3)))]);
    assert_eq!(args.named::<Length>("width"), Ok(Some(Length::pt(3))));
    assert_eq!(args.named::<Length>("width"), Ok(None));
    assert!(args.items.is_empty());
}

#[test]
fn named_takes_the_first_of_a_name_given_twice() {
    let mut args = call(vec![
        Arg::named(at(2), "width", Value::Length(Length::pt(2))),
        Arg::named(at(3), "width", Value::Length(Length::pt(3))),
    ]);
    assert_eq!(args.named::<Length>("width"), Ok(Some(Length::pt(2))));
    assert_eq!(args.items, vec![Arg::named(at(3), "width", Value::Length(Length::pt(3)))]);
}

#[test]
fn named_spanned_keeps_the_place() {
    let mut args = call(vec![Arg::named(at(7), "paper", Value::Str("a4".to_string()))]);
    assert_eq!(
        args.named_spanned::<String>("paper"),
        Ok(Some(Spanned::new("a4".to_string(), at(7))))
    );
    assert_eq!(args.named_spanned::<String>("paper"), Ok(None));
}

#[test]
fn eat_takes_the_next_positional_argument() {
    let mut args = call(vec![
        Arg::named(at(1), "left", Value::Length(Length::pt(1))),
        Arg::positional(at(2), Value::Length(Length::pt(2))),
        Arg::positional(at(3), Value::Length(Length::pt(3))),
    ]);
    assert_eq!(args.eat::<Length>(), Some(Length::pt(2)));
    assert_eq!(
        args.items,
        vec![
            Arg::named(at(1), "left", Value::Length(Length::pt(1))),
            Arg::positional(at(3), Value::Length(Length::pt(3))),
        ]
    );
    assert_eq!(args.eat_spanned::<Length>(), Some(Spanned::new(Length::pt(3), at(3))));
    assert_eq!(args.eat::<Length>(), None);
    assert_eq!(args.items, vec![Arg::named(at(1), "left", Value::Length(Length::pt(1)))]);
}

#[test]
fn eat_leaves_what_does_not_cast() {
    let mut args = call(vec![
        Arg::positional(at(1), Value::Node(Node::Space)),
        Arg::positional(at(2), Value::Length(Length::pt(2))),
    ]);
    assert_eq!(args.eat::<Linear>(), None);
    assert_eq!(args.items.len(), 2);
    assert_eq!(args.eat::<Node>(), Some(Node::Space));
    assert_eq!(args.eat::<Linear>(), Some(Linear::from_length(Length::pt(2))));
    assert!(args.items.is_empty());
}

#[test]
fn eat_does_not_look_past_the_next_positional_argument() {
    let mut args = call(vec![
        Arg::positional(at(1), Value::Node(Node::Space)),
        Arg::positional(at(2), Value::Align(Align::Left)),
    ]);
    assert_eq!(args.eat::<Align>(), None);
    assert_eq!(args.items.len(), 2);
}

#[test]
fn expect_takes_the_next_positional_argument() {
    let mut args = call(vec![
        Arg::named(at(1), "left", Value::Length(Length::pt(1))),
        Arg::positional(at(2), Value::Relative(Relative::percent(20))),
    ]);
    assert_eq!(args.expect::<Linear>("spacing"), Ok(Linear::from_relative(Relative::percent(20))));
    assert_eq!(args.items, vec![Arg::named(at(1), "left", Value::Length(Length::pt(1)))]);
}

#[test]
fn expect_reports_a_missing_argument() {
    let missing = Error {
        span: Span::new(0, 100),
        kind: ErrorKind::MissingArgument { what: "spacing".to_string() },
    };
    let mut empty = call(vec![]);
    assert_eq!(empty.expect::<Linear>("spacing"), Err(missing));
    let missing = Error {
        span: Span::new(0, 100),
        kind: ErrorKind::MissingArgument { what: "spacing".to_string() },
    };
    let mut named_only = call(vec![Arg::named(at(1), "spacing", Value::Length(Length::pt(1)))]);
    assert_eq!(named_only.expect::<Linear>("spacing"), Err(missing));
    assert_eq!(named_only.items.len(), 1);
}

#[test]
fn expect_reports_a_missing_argument_where_the_next_does_not_cast() {
    let mut args = call(vec![Arg::positional(at(1), Value::Int(4))]);
    assert_eq!(
        args.expect::<Linear>("spacing"),
        Err(Error {
            span: Span::new(0, 100),
            kind: ErrorKind::MissingArgument { what: "spacing".to_string() },
        })
    );
    assert_eq!(args.items, vec![Arg::positional(at(1), Value::Int(4))]);
}

#[test]
fn all_takes_every_positional_argument_in_order() {
    let mut args = call(vec![
        Arg::positional(at(1), Value::Length(Length::pt(1))),
        Arg::named(at(2), "dir", Value::Int(1)),
        Arg::positional(at(3), Value::Length(Length::pt(3))),
        Arg::named(at(4), "spacing", Value::Int(2)),
        Arg::positional(at(5), Value::Length(Length::pt(5))),
    ]);
    assert_eq!(args.all::<Length>(), Ok(vec![Length::pt(1), Length::pt(3), Length::pt(5)]));
    assert_eq!(
        args.items,
        vec![Arg::named(at(2), "dir", Value::Int(1)), Arg::named(at(4), "spacing", Value::Int(2))]
    );
    assert_eq!(args.all::<Length>(), Ok(vec![]));
}

#[test]
fn all_of_nothing_is_nothing() {
    let mut args = call(vec![]);
    assert_eq!(args.all::<Node>(), Ok(vec![]));
    assert!(args.items.is_empty());
}

#[test]
fn all_stops_at_the_first_that_does_not_cast() {
    let mut args = call(vec![
        Arg::named(at(1), "dir", Value::Int(1)),
        Arg::positional(at(2), Value::Length(Length::pt(2))),
        Arg::positional(at(3), Value::Int(3)),
        Arg::named(at(4), "spacing", Value::Int(2)),
        Arg::positional(at(5), Value::Length(Length::pt(5))),
        Arg::positional(at(6), Value::Bool(true)),
    ]);
    assert_eq!(
        args.all::<Length>(),
        Err(Error {
            span: at(3),
            kind: ErrorKind::Cast { expected: "length", found: ValueKind::Int },
        })
    );
    assert_eq!(
        args.items,
        vec![
            Arg::named(at(1), "dir", Value::Int(1)),
            Arg::named(at(4), "spacing", Value::Int(2)),
            Arg::positional(at(5), Value::Length(Length::pt(5))),
            Arg::positional(at(6), Value::Bool(true)),
        ]
    );
}
