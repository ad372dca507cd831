use typst::args::{Arg, Args};
use typst::diag::{Error, ErrorKind, Span};
use typst::geom::{Align, Length, Linear, Relative, Sides, Size};
use typst::library::layout::{page, page_settings, paper_setting, PageSettings};
use typst::paper::{Paper, PaperClass};
use typst::style::{EvalContext, Style};
use typst::value::{Value, ValueKind};

fn page_call(items: Vec<Arg>) -> Args {
    Args::new(Span::new(0, 50), items)
}

fn spot(n: usize) -> Span {
    Span::new(n, n + 2)
}

fn text(s: &str) -> Value {
    Value::Str(s.to_string())
}

fn pt(n: i32) -> Value {
    Value::Length(Length::pt(n))
}

fn no_settings() -> PageSettings {
    PageSettings {
        paper: None,
        width: None,
        height: None,
        margins: None,
        left: None,
        top: None,
        right: None,
        bottom: None,
        flip: None,
    }
}

fn us_letter_style() -> Style {
    let mut style = Style::default();
    let letter = Paper::from_name("us-letter").unwrap();
    style.page.class = letter.class();
    style.page.size = letter.size();
    style.page.margins = Sides::splat(Some(Linear::from_length(Length::pt(9))));
    style.text.align = Align::Right;
    style.par.align = Align::Bottom;
    style
}

#[test]
fn page_with_paper_and_width() {
    let mut ctx = EvalContext::new(us_letter_style());
    let mut args = page_call(vec![
        Arg::named(spot(1), "paper", text("a4")),
        Arg::named(spot(2), "width", pt(200)),
    ]);
    assert_eq!(page(&mut ctx, &mut args), Ok(Value::Nothing));
    assert_eq!(ctx.style.page.size.w, Length::pt(200));
    assert_eq!(ctx.style.page.size.h, Paper::from_name("a4").unwrap().size().h);
    assert_eq!(ctx.style.page.size.h, Length::mm(297));
    assert_eq!(ctx.style.page.class, PaperClass::Custom);
    assert!(args.items.is_empty());
}

#[test]
fn page_with_width_before_paper() {
    let mut ctx = EvalContext::new(us_letter_style());
    let mut args = page_call(vec![
        Arg::named(spot(1), "width", pt(200)),
        Arg::named(spot(2), "paper", text("a4")),
    ]);
    assert_eq!(page(&mut ctx, &mut args), Ok(Value::Nothing));
    assert_eq!(ctx.style.page.size, Size { w: Length::pt(200), h: Length::mm(297) });
    assert_eq!(ctx.style.page.class, PaperClass::Custom);
}

#[test]
fn page_with_paper_and_flip() {
    let mut ctx = EvalContext::new(us_letter_style());
    let mut args = page_call(vec![
        Arg::named(spot(1), "paper", text("a4")),
        Arg::named(spot(2), "flip", Value::Bool(true)),
    ]);
    assert_eq!(page(&mut ctx, &mut args), Ok(Value::Nothing));
    assert_eq!(ctx.style.page.size, Size { w: Length::mm(297), h: Length::mm(210) });
    assert_eq!(ctx.style.page.class, PaperClass::Base);
}

#[test]
fn page_flip_swaps_what_width_and_height_give() {
    let mut ctx = EvalContext::new(us_letter_style());
    let mut args = page_call(vec![
        Arg::named(spot(1), "flip", Value::Bool(true)),
        Arg::named(spot(2), "paper", text("a4")),
        Arg::named(spot(3), "height", pt(300)),
    ]);
    assert_eq!(page(&mut ctx, &mut args), Ok(Value::Nothing));
    assert_eq!(ctx.style.page.size, Size { w: Length::pt(300), h: Length::mm(210) });
    assert_eq!(ctx.style.page.class, PaperClass::Custom);
}

#[test]
fn page_without_flip_or_with_flip_off_swaps_nothing() {
    let mut ctx = EvalContext::new(us_letter_style());
    let mut args = page_call(vec![
        Arg::named(spot(1), "flip", Value::Bool(false)),
        Arg::named(spot(2), "paper", text("a5")),
    ]);
    assert_eq!(page(&mut ctx, &mut args), Ok(Value::Nothing));
    assert_eq!(ctx.style.page.size, Size { w: Length::mm(148), h: Length::mm(210) });
}

#[test]
fn page_takes_the_paper_by_position() {
    let mut ctx = EvalContext::new(us_letter_style());
    let mut args = page_call(vec![Arg::positional(spot(1), text("a3"))]);
    assert_eq!(page(&mut ctx, &mut args), Ok(Value::Nothing));
    assert_eq!(ctx.style.page.size, Size { w: Length::mm(297), h: Length::mm(420) });
    assert_eq!(ctx.style.page.class, PaperClass::Base);
    assert!(args.items.is_empty());
}

#[test]
fn page_prefers_the_paper_given_by_name() {
    let mut ctx = EvalContext::new(us_letter_style());
    let mut args = page_call(vec![
        Arg::positional(spot(1), text("a3")),
        Arg::named(spot(2), "paper", text("a6")),
    ]);
    assert_eq!(page(&mut ctx, &mut args), Ok(Value::Nothing));
    assert_eq!(ctx.style.page.size, Size { w: Length::mm(105), h: Length::mm(148) });
    assert_eq!(args.items, vec![Arg::positional(spot(1), text("a3"))]);
}

#[test]
fn page_without_arguments_changes_nothing() {
    let mut ctx = EvalContext::new(us_letter_style());
    let mut args = page_call(vec![]);
    assert_eq!(page(&mut ctx, &mut args), Ok(Value::Nothing));
    assert_eq!(ctx.style, us_letter_style());
}

#[test]
fn page_leaves_text_and_paragraphs_alone() {
    let mut ctx = EvalContext::new(us_letter_style());
    let mut args = page_call(vec![Arg::named(spot(1), "paper", text("a4"))]);
    assert_eq!(page(&mut ctx, &mut args), Ok(Value::Nothing));
    assert_eq!(ctx.style.text, us_letter_style().text);
    assert_eq!(ctx.style.par, us_letter_style().par);
    assert_eq!(ctx.style.page.margins, us_letter_style().page.margins);
}

#[test]
fn page_margins_for_all_sides() {
    let mut ctx = EvalContext::new(Style::default());
    let mut args = page_call(vec![Arg::named(spot(1), "margins", pt(10))]);
    assert_eq!(page(&mut ctx, &mut args), Ok(Value::Nothing));
    assert_eq!(ctx.style.page.margins, Sides::splat(Some(Linear::from_length(Length::pt(10)))));
    assert_eq!(ctx.style.page.size, Style::default().page.size);
    assert_eq!(ctx.style.page.class, PaperClass::Base);
}

#[test]
fn page_margin_of_one_side_wins() {
    let mut ctx = EvalContext::new(Style::default());
    let mut args = page_call(vec![
        Arg::named(spot(1), "left", pt(1)),
        Arg::named(spot(2), "bottom", Value::Relative(Relative::percent(5))),
        Arg::named(spot(3), "margins", pt(10)),
    ]);
    assert_eq!(page(&mut ctx, &mut args), Ok(Value::Nothing));
    let ten = Some(Linear::from_length(Length::pt(10)));
    assert_eq!(
        ctx.style.page.margins,
        Sides {
            left: Some(Linear::from_length(Length::pt(1))),
            top: ten,
            right: ten,
            bottom: Some(Linear::from_relative(Relative::percent(5))),
        }
    );
}

#[test]
fn page_margin_of_one_side_keeps_the_others() {
    let mut ctx = EvalContext::new(us_letter_style());
    let mut args = page_call(vec![
        Arg::named(spot(1), "top", pt(1)),
        Arg::named(spot(2), "right", pt(2)),
    ]);
    assert_eq!(page(&mut ctx, &mut args), Ok(Value::Nothing));
    let nine = Some(Linear::from_length(Length::pt(9)));
    assert_eq!(
        ctx.style.page.margins,
        Sides {
            left: nine,
            top: Some(Linear::from_length(Length::pt(1))),
            right: Some(Linear::from_length(Length::pt(2))),
            bottom: nine,
        }
    );
}

#[test]
fn page_rejects_an_unknown_paper() {
    let mut ctx = EvalContext::new(us_letter_style());
    let mut args = page_call(vec![
        Arg::named(spot(1), "width", pt(200)),
        Arg::named(spot(4), "paper", text("a44")),
    ]);
    assert_eq!(
        page(&mut ctx, &mut args),
        Err(Error { span: spot(4), kind: ErrorKind::InvalidPaperName })
    );
    assert_eq!(ctx.style, us_letter_style());
    assert_eq!(args.items, vec![Arg::named(spot(1), "width", pt(200))]);
}

#[test]
fn page_rejects_an_unknown_paper_given_by_position() {
    let mut ctx = EvalContext::new(us_letter_style());
    let mut args = page_call(vec![Arg::positional(spot(6), text("letter"))]);
    assert_eq!(
        page(&mut ctx, &mut args),
        Err(Error { span: spot(6), kind: ErrorKind::InvalidPaperName })
    );
    assert_eq!(ctx.style, us_letter_style());
}

#[test]
fn page_rejects_a_paper_that_is_no_string() {
    let mut ctx = EvalContext::new(us_letter_style());
    let mut args = page_call(vec![Arg::named(spot(4), "paper", Value::Int(4))]);
    assert_eq!(
        page(&mut ctx, &mut args),
        Err(Error {
            span: spot(4),
            kind: ErrorKind::Cast { expected: "string", found: ValueKind::Int },
        })
    );
    assert_eq!(ctx.style, us_letter_style());
}

#[test]
fn page_rejects_a_wrong_kind_and_keeps_the_style() {
    let mut ctx = EvalContext::new(us_letter_style());
    let mut args = page_call(vec![
        Arg::named(spot(1), "paper", text("a4")),
        Arg::named(spot(2), "flip", Value::Int(1)),
        Arg::named(spot(3), "height", Value::Relative(Relative::percent(10))),
        Arg::named(spot(4), "width", pt(10)),
    ]);
    assert_eq!(
        page(&mut ctx, &mut args),
        Err(Error {
            span: spot(3),
            kind: ErrorKind::Cast {
                expected: "length",
                found: ValueKind::Relative
            },
        })
    );
    assert_eq!(ctx.style, us_letter_style());
    assert_eq!(args.items, vec![Arg::named(spot(2), "flip", Value::Int(1))]);
}

#[test]
fn page_rejects_a_flip_that_is_no_boolean() {
    let mut ctx = EvalContext::new(us_letter_style());
    let mut args = page_call(vec![Arg::named(spot(2), "flip", Value::Int(1))]);
    assert_eq!(
        page(&mut ctx, &mut args),
        Err(Error {
            span: spot(2),
            kind: ErrorKind::Cast { expected: "boolean", found: ValueKind::Int },
        })
    );
    assert!(args.items.is_empty());
}

#[test]
fn page_settings_are_taken_as_written() {
    let mut args = page_call(vec![
        Arg::named(spot(1), "bottom", pt(4)),
        Arg::named(spot(2), "right", pt(3)),
        Arg::named(spot(3), "top", pt(2)),
        Arg::named(spot(4), "left", pt(1)),
        Arg::named(spot(5), "margins", pt(5)),
        Arg::named(spot(6), "height", pt(6)),
        Arg::named(spot(7), "width", pt(7)),
        Arg::named(spot(8), "flip", Value::Bool(false)),
        Arg::named(spot(9), "paper", text("us-legal")),
        Arg::named(spot(10), "other", pt(8)),
    ]);
    let lin = |n: i32| Some(Linear::from_length(Length::pt(n)));
    assert_eq!(
        page_settings(&mut args),
        Ok(PageSettings {
            paper: Paper::from_name("us-legal"),
            width: Some(Length::pt(7)),
            height: Some(Length::pt(6)),
            margins: lin(5),
            left: lin(1),
            top: lin(2),
            right: lin(3),
            bottom: lin(4),
            flip: Some(false),
        })
    );
    assert_eq!(args.items, vec![Arg::named(spot(10), "other", pt(8))]);
}

#[test]
fn paper_setting_leaves_a_positional_argument_that_is_no_string() {
    let mut args = page_call(vec![Arg::positional(spot(1), pt(8))]);
    assert_eq!(paper_setting(&mut args), Ok(None));
    assert_eq!(args.items.len(), 1);
}

#[test]
fn settings_apply_in_their_fixed_order() {
    let mut page_style = us_letter_style().page;
    no_settings().apply(&mut page_style);
    assert_eq!(page_style, us_letter_style().page);

    let settings = PageSettings {
        paper: Paper::from_name("a4"),
        height: Some(Length::pt(50)),
        flip: Some(true),
        margins: Some(Linear::zero()),
        top: Some(Linear::from_length(Length::pt(3))),
        ..no_settings()
    };
    settings.apply(&mut page_style);
    assert_eq!(page_style.class, PaperClass::Custom);
    assert_eq!(page_style.size, Size { w: Length::pt(50), h: Length::mm(210) });
    assert_eq!(
        page_style.margins,
        Sides {
            left: Some(Linear::zero()),
            top: Some(Linear::from_length(Length::pt(3))),
            right: Some(Linear::zero()),
            bottom: Some(Linear::zero()),
        }
    );
}

#[test]
fn flipping_twice_gives_the_size_back() {
    let mut page_style = us_letter_style().page;
    let flip = PageSettings { flip: Some(true), ..no_settings() };
    flip.apply(&mut page_style);
    assert_eq!(page_style.size.w, us_letter_style().page.size.h);
    assert_eq!(page_style.size.h, us_letter_style().page.size.w);
    flip.apply(&mut page_style);
    assert_eq!(page_style, us_letter_style().page);
}
