use typst::geom::{
    Align, Fractional, Length, Linear, Relative, Sides, Size, Spec, SpecAxis, UNITS_PER_CM,
    UNITS_PER_INCH, UNITS_PER_MM, UNITS_PER_PT,
};
use typst::paper::{Paper, PaperClass};
use typst::style::{EvalContext, Style};

#[test]
fn units_agree_with_each_other() {
    assert_eq!(UNITS_PER_INCH, 72 * UNITS_PER_PT);
    assert_eq!(UNITS_PER_CM, 10 * UNITS_PER_MM);
    assert_eq!(10 * UNITS_PER_INCH, 254 * UNITS_PER_MM);
}

#[test]
fn length_constructors_give_exact_units() {
    assert_eq!(Length::zero().raw, 0);
    assert_eq!(Length::raw(17).raw, 17);
    assert_eq!(Length::pt(200).raw, 254000);
    assert_eq!(Length::pt(-3).raw, -3810);
    assert_eq!(Length::mm(210).raw, 756000);
    assert_eq!(Length::cm(21), Length::mm(210));
    assert_eq!(Length::inches(1), Length::pt(72));
    assert_eq!(Length::pt(i32::MAX).raw, 2147483647i64 * 1270);
    assert_eq!(Length::inches(i32::MIN).raw, -2147483648i64 * 91440);
}

#[test]
fn relative_and_fractional_give_exact_units() {
    assert_eq!(Relative::zero().raw, 0);
    assert_eq!(Relative::one(), Relative::percent(100));
    assert_eq!(Relative::percent(50).raw, 500000);
    assert_eq!(Fractional::fr(1).raw, 1000);
    assert_eq!(Fractional::fr(2).raw, 2000);
}

#[test]
fn linear_widens_lengths_and_shares() {
    assert_eq!(Linear::zero(), Linear { rel: Relative { raw: 0 }, abs: Length { raw: 0 } });
    assert_eq!(
        Linear::from_length(Length::pt(5)),
        Linear { rel: Relative::zero(), abs: Length::pt(5) }
    );
    assert_eq!(
        Linear::from_relative(Relative::percent(30)),
        Linear { rel: Relative::percent(30), abs: Length::zero() }
    );
    assert_eq!(
        Linear::new(Relative::percent(30), Length::pt(5)),
        Linear { rel: Relative::percent(30), abs: Length::pt(5) }
    );
}

#[test]
fn alignments_know_their_axis() {
    assert_eq!(Align::Left.axis(), Some(SpecAxis::Horizontal));
    assert_eq!(Align::Right.axis(), Some(SpecAxis::Horizontal));
    assert_eq!(Align::Top.axis(), Some(SpecAxis::Vertical));
    assert_eq!(Align::Bottom.axis(), Some(SpecAxis::Vertical));
    assert_eq!(Align::Center.axis(), None);
}

#[test]
fn containers_keep_what_they_are_given() {
    assert_eq!(Size::new(Length::pt(1), Length::pt(2)), Size { w: Length::pt(1), h: Length::pt(2) });
    assert_eq!(Spec::new(1, 2), Spec { x: 1, y: 2 });
    assert_eq!(Sides::new(1, 2, 3, 4), Sides { left: 1, top: 2, right: 3, bottom: 4 });
    assert_eq!(Sides::splat(7), Sides { left: 7, top: 7, right: 7, bottom: 7 });
}

#[test]
fn papers_are_found_by_name() {
    let a4 = Paper::from_name("a4").unwrap();
    assert_eq!(a4.class(), PaperClass::Base);
    assert_eq!(a4.size(), Size { w: Length::mm(210), h: Length::mm(297) });
    let a0 = Paper::from_name("a0").unwrap();
    assert_eq!(a0.size(), Size { w: Length::mm(841), h: Length::mm(1189) });
    let a10 = Paper::from_name("a10").unwrap();
    assert_eq!(a10.size(), Size { w: Length::mm(26), h: Length::mm(37) });
    let letter = Paper::from_name("us-letter").unwrap();
    assert_eq!(letter.class(), PaperClass::US);
    assert_eq!(letter.size().w.raw, 21590 * 36);
    assert_eq!(letter.size().h, Length::inches(11));
    let legal = Paper::from_name("us-legal").unwrap();
    assert_eq!(legal.size().h, Length::inches(14));
    let tabloid = Paper::from_name("us-tabloid").unwrap();
    assert_eq!(tabloid.size(), Size { w: Length::inches(11), h: Length::inches(17) });
    let executive = Paper::from_name("us-executive").unwrap();
    assert_eq!(executive.size().w.raw, 18415 * 36);
}

#[test]
fn unknown_papers_are_not_found() {
    assert_eq!(Paper::from_name("a11"), None);
    assert_eq!(Paper::from_name("A4"), None);
    assert_eq!(Paper::from_name(""), None);
    assert_eq!(Paper::from_name("a4 "), None);
}

#[test]
fn every_paper_name_gives_its_own_size() {
    let names = [
        "a0", "a1", "a2", "a3", "a4", "a5", "a6", "a7", "a8", "a9", "a10", "us-letter",
        "us-legal", "us-tabloid", "us-executive",
    ];
    for (i, first) in names.iter().enumerate() {
        let paper = Paper::from_name(first).unwrap();
        assert!(paper.width < paper.height);
        for second in names.iter().skip(i + 1) {
            assert_ne!(Some(paper), Paper::from_name(second));
        }
    }
}

#[test]
fn the_default_style_is_a4() {
    let style = Style::default();
    assert_eq!(style.page.class, PaperClass::Base);
    assert_eq!(style.page.size, Paper::from_name("a4").unwrap().size());
    assert_eq!(style.page.margins, Sides::splat(None));
    assert_eq!(style.text.align, Align::Left);
    assert_eq!(style.par.align, Align::Top);
    assert_eq!(EvalContext::new(style).style, style);
}

#[test]
fn style_parts_are_changed_in_place() {
    let mut style = Style::default();
    style.page_mut().size.w = Length::pt(100);
    style.text_mut().align = Align::Center;
    style.par_mut().align = Align::Bottom;
    let mut expected = Style::default();
    expected.page.size.w = Length::pt(100);
    expected.text.align = Align::Center;
    expected.par.align = Align::Bottom;
    assert_eq!(style, expected);
}
