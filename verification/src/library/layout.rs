//! Directives for pages, alignment, spacing, boxes, stacks and grids.

use vstd::prelude::*;
use crate::args::{spec_all, spec_eat, spec_expect, spec_named, view_of, Arg, Args, Taken};
use crate::cast::Cast;
use crate::color::{Color, Paint};
use crate::diag::{
    lemma_occurs_at, Error, ErrorKind, ErrorView, Problem, Span, Spanned, TypResult,
};
use crate::geom::{Align, Dir, GenAxis, Length, Linear, Sides, Size, Spec, SpecAxis};
use crate::layout::{
    GridNode, GridView, Node, PackedNode, PadNode, ShapeKind, ShapeNode, StackChild, StackNode,
    StackView, TrackSizing,
};
use crate::paper::{Paper, PaperClass};
use crate::style::{EvalContext, PageStyle, ParStyle, Style, TextStyle};
use crate::value::{Value, ValueKind};

verus! {

/// What was taken, without the place it was written at.
pub open spec fn unspanned<V>(found: Option<Spanned<V>>) -> Option<V> {
    match found {
        Some(s) => Some(s.v),
        None => None,
    }
}

/// What a call of `page` asks for.
#[derive(Clone, Copy, Debug, PartialEq, Eq)]
pub struct PageSettings {
    /// The paper to take class and size from.
    pub paper: Option<Paper>,
    /// The width of the page.
    pub width: Option<Length>,
    /// The height of the page.
    pub height: Option<Length>,
    /// The margin for all four sides.
    pub margins: Option<Linear>,
    /// The margin on the left.
    pub left: Option<Linear>,
    /// The margin at the top.
    pub top: Option<Linear>,
    /// The margin on the right.
    pub right: Option<Linear>,
    /// The margin at the bottom.
    pub bottom: Option<Linear>,
    /// Whether to swap width and height.
    pub flip: Option<bool>,
}

/// The first of two options that holds a value.
pub open spec fn first_of<V>(a: Option<V>, b: Option<V>) -> Option<V> {
    if a is Some {
        a
    } else {
        b
    }
}

impl PageSettings {
    /// The page style that results from a page style under these settings.
    ///
    /// A width or height given by itself wins over that of the paper and
    /// makes the class custom; a margin given for one side wins over the
    /// margin given for all; width and height are swapped last.
    pub open spec fn spec_apply(self, page: PageStyle) -> PageStyle {
        let class = if self.width is Some || self.height is Some {
            PaperClass::Custom
        } else if self.paper is Some {
            self.paper->0.class
        } else {
            page.class
        };
        let paper_size = if self.paper is Some {
            self.paper->0.spec_size()
        } else {
            page.size
        };
        let w = if self.width is Some {
            self.width->0
        } else {
            paper_size.w
        };
        let h = if self.height is Some {
            self.height->0
        } else {
            paper_size.h
        };
        let all = if self.margins is Some {
            Sides::<Option<Linear>>::spec_splat(self.margins)
        } else {
            page.margins
        };
        PageStyle {
            class,
            size: if self.flip == Some(true) {
                Size { w: h, h: w }
            } else {
                Size { w, h }
            },
            margins: Sides {
                left: first_of(self.left, all.left),
                top: first_of(self.top, all.top),
                right: first_of(self.right, all.right),
                bottom: first_of(self.bottom, all.bottom),
            },
        }
    }

    /// Changes a page style as these settings ask.
    pub fn apply(self, page: &mut PageStyle)
        ensures
            *final(page) == self.spec_apply(*old(page)),
    {
        if let Some(paper) = self.paper {
            page.class = paper.class();
            page.size = paper.size();
        }
        if let Some(width) = self.width {
            page.class = PaperClass::Custom;
            page.size.w = width;
        }
        if let Some(height) = self.height {
            page.class = PaperClass::Custom;
            page.size.h = height;
        }
        if let Some(margins) = self.margins {
            page.margins = Sides::splat(Some(margins));
        }
        if let Some(left) = self.left {
            page.margins.left = Some(left);
        }
        if let Some(top) = self.top {
            page.margins.top = Some(top);
        }
        if let Some(right) = self.right {
            page.margins.right = Some(right);
        }
        if let Some(bottom) = self.bottom {
            page.margins.bottom = Some(bottom);
        }
        if let Some(true) = self.flip {
            let w = page.size.w;
            page.size.w = page.size.h;
            page.size.h = w;
        }
    }
}

/// A width given by itself wins over the width of the paper, whose height
/// stays; the class is then custom.
pub proof fn lemma_width_wins_over_paper(settings: PageSettings, page: PageStyle)
    requires
        settings.paper is Some,
        settings.width is Some,
        settings.height is None,
        settings.flip != Some(true),
    ensures
        settings.spec_apply(page).size.w == settings.width->0,
        settings.spec_apply(page).size.h == settings.paper->0.spec_size().h,
        settings.spec_apply(page).class == PaperClass::Custom,
{
}

/// A height given by itself wins over the height of the paper, whose width
/// stays; the class is then custom.
pub proof fn lemma_height_wins_over_paper(settings: PageSettings, page: PageStyle)
    requires
        settings.paper is Some,
        settings.width is None,
        settings.height is Some,
        settings.flip != Some(true),
    ensures
        settings.spec_apply(page).size.w == settings.paper->0.spec_size().w,
        settings.spec_apply(page).size.h == settings.height->0,
        settings.spec_apply(page).class == PaperClass::Custom,
{
}

/// The flip comes last: it swaps the width and height that the settings
/// give without it, and changes nothing else.
pub proof fn lemma_flip_swaps_last(settings: PageSettings, page: PageStyle)
    requires
        settings.flip != Some(true),
    ensures
        ({
            let plain = settings.spec_apply(page);
            let flipped = (PageSettings { flip: Some(true), ..settings }).spec_apply(page);
            &&& flipped.size.w == plain.size.h
            &&& flipped.size.h == plain.size.w
            &&& flipped.class == plain.class
            &&& flipped.margins == plain.margins
        }),
{
}

/// A margin given for one side wins over the margin given for all, which
/// the other sides take.
pub proof fn lemma_side_margin_wins(settings: PageSettings, page: PageStyle)
    requires
        settings.margins is Some,
    ensures
        settings.spec_apply(page).margins.left == first_of(settings.left, settings.margins),
        settings.spec_apply(page).margins.top == first_of(settings.top, settings.margins),
        settings.spec_apply(page).margins.right == first_of(settings.right, settings.margins),
        settings.spec_apply(page).margins.bottom == first_of(settings.bottom, settings.margins),
{
}

/// Taking the name of the paper: the argument named `paper`, or else the
/// next positional argument if it is a string.
pub open spec fn spec_paper_name(items: Seq<Arg>) -> Taken<
    Result<Option<Spanned<Seq<char>>>, ErrorView>,
> {
    let named = spec_named::<String>(items, "paper"@);
    if named.got == Ok::<Option<Spanned<Seq<char>>>, ErrorView>(None) {
        let eaten = spec_eat::<String>(named.rest);
        Taken { got: Ok(eaten.got), rest: eaten.rest }
    } else {
        named
    }
}

/// Taking the paper: its name must denote one.
pub open spec fn spec_paper(items: Seq<Arg>) -> Taken<Result<Option<Paper>, ErrorView>> {
    let name = spec_paper_name(items);
    Taken {
        got: match name.got {
            Err(e) => Err(e),
            Ok(None) => Ok(None),
            Ok(Some(found)) => match Paper::spec_from_name(found.v) {
                Some(paper) => Ok(Some(paper)),
                None => Err(ErrorView { span: found.span, problem: Problem::InvalidPaperName }),
            },
        },
        rest: name.rest,
    }
}

/// Taking the settings of a page from the arguments of a call: the paper
/// first, then `width`, `height`, `margins`, `left`, `top`, `right`,
/// `bottom` and `flip` by name. The first that fails ends the taking.
pub open spec fn spec_page_settings(items: Seq<Arg>) -> Taken<Result<PageSettings, ErrorView>> {
    let paper = spec_paper(items);
    let width = spec_named::<Length>(paper.rest, "width"@);
    let height = spec_named::<Length>(width.rest, "height"@);
    let margins = spec_named::<Linear>(height.rest, "margins"@);
    let left = spec_named::<Linear>(margins.rest, "left"@);
    let top = spec_named::<Linear>(left.rest, "top"@);
    let right = spec_named::<Linear>(top.rest, "right"@);
    let bottom = spec_named::<Linear>(right.rest, "bottom"@);
    let flip = spec_named::<bool>(bottom.rest, "flip"@);
    if paper.got is Err {
        Taken { got: Err(paper.got->Err_0), rest: paper.rest }
    } else if width.got is Err {
        Taken { got: Err(width.got->Err_0), rest: width.rest }
    } else if height.got is Err {
        Taken { got: Err(height.got->Err_0), rest: height.rest }
    } else if margins.got is Err {
        Taken { got: Err(margins.got->Err_0), rest: margins.rest }
    } else if left.got is Err {
        Taken { got: Err(left.got->Err_0), rest: left.rest }
    } else if top.got is Err {
        Taken { got: Err(top.got->Err_0), rest: top.rest }
    } else if right.got is Err {
        Taken { got: Err(right.got->Err_0), rest: right.rest }
    } else if bottom.got is Err {
        Taken { got: Err(bottom.got->Err_0), rest: bottom.rest }
    } else if flip.got is Err {
        Taken { got: Err(flip.got->Err_0), rest: flip.rest }
    } else {
        Taken {
            got: Ok(
                PageSettings {
                    paper: paper.got->Ok_0,
                    width: unspanned(width.got->Ok_0),
                    height: unspanned(height.got->Ok_0),
                    margins: unspanned(margins.got->Ok_0),
                    left: unspanned(left.got->Ok_0),
                    top: unspanned(top.got->Ok_0),
                    right: unspanned(right.got->Ok_0),
                    bottom: unspanned(bottom.got->Ok_0),
                    flip: unspanned(flip.got->Ok_0),
                },
            ),
            rest: flip.rest,
        }
    }
}

/// Takes the paper of a page from the arguments of a call.
pub fn paper_setting(args: &mut Args) -> (r: Result<Option<Paper>, Error>)
    ensures
        final(args).span == old(args).span,
        final(args)@ == spec_paper(old(args)@).rest,
        match r {
            Ok(paper) => spec_paper(old(args)@).got == Ok::<Option<Paper>, ErrorView>(paper),
            Err(e) => spec_paper(old(args)@).got == Err::<Option<Paper>, ErrorView>(e@),
        },
{
    let named = args.named_spanned::<String>("paper")?;
    let name = match named {
        Some(found) => Some(found),
        None => args.eat_spanned::<String>(),
    };
    match name {
        Some(found) => match Paper::from_name(found.v.as_str()) {
            Some(paper) => Ok(Some(paper)),
            None => Err(Error { span: found.span, kind: ErrorKind::InvalidPaperName }),
        },
        None => Ok(None),
    }
}

/// Takes the settings of a page from the arguments of a call.
pub fn page_settings(args: &mut Args) -> (r: Result<PageSettings, Error>)
    ensures
        final(args).span == old(args).span,
        final(args)@ == spec_page_settings(old(args)@).rest,
        match r {
            Ok(settings) => spec_page_settings(old(args)@).got == Ok::<PageSettings, ErrorView>(
                settings,
            ),
            Err(e) => spec_page_settings(old(args)@).got == Err::<PageSettings, ErrorView>(e@),
        },
{
    let paper = paper_setting(args)?;
    let width = args.named::<Length>("width")?;
    let height = args.named::<Length>("height")?;
    let margins = args.named::<Linear>("margins")?;
    let left = args.named::<Linear>("left")?;
    let top = args.named::<Linear>("top")?;
    let right = args.named::<Linear>("right")?;
    let bottom = args.named::<Linear>("bottom")?;
    let flip = args.named::<bool>("flip")?;
    Ok(PageSettings { paper, width, height, margins, left, top, right, bottom, flip })
}

/// What `page` makes of a style, given the arguments of the call: the
/// style is changed only where all settings could be taken.
pub open spec fn spec_page(style: Style, items: Seq<Arg>) -> Style {
    match spec_page_settings(items).got {
        Ok(settings) => Style { page: settings.spec_apply(style.page), text: style.text, par: style.par },
        Err(_) => style,
    }
}

/// `page`: Configure pages.
///
/// Takes the settings from the arguments, then changes the page style:
/// the paper first, then width and height, then the margin for all sides,
/// then the margin of each side, then the flip. Where an argument is of the
/// wrong kind or the paper's name is unknown, the style stays as it was.
pub fn page(ctx: &mut EvalContext, args: &mut Args) -> (r: TypResult<Value>)
    ensures
        final(args).span == old(args).span,
        final(args)@ == spec_page_settings(old(args)@).rest,
        final(ctx).style == spec_page(old(ctx).style, old(args)@),
        match r {
            Ok(value) => value is Nothing && spec_page_settings(old(args)@).got is Ok,
            Err(e) => spec_page_settings(old(args)@).got == Err::<PageSettings, ErrorView>(e@),
        },
{
    let settings = page_settings(args)?;
    settings.apply(ctx.style.page_mut());
    Ok(Value::Nothing)
}

/// The two alignments that `align` settles: one for each axis.
#[derive(Clone, Copy, Debug, PartialEq, Eq)]
pub struct AlignSlots {
    pub horizontal: Option<Align>,
    pub vertical: Option<Align>,
}

impl AlignSlots {
    /// The slots after an alignment given by position has been placed.
    ///
    /// It goes to the horizontal slot if that is empty and the alignment is
    /// not a vertical one; else to the vertical slot if that is empty and the
    /// alignment is not a horizontal one; else nowhere.
    pub open spec fn spec_place(self, value: Option<Align>) -> AlignSlots {
        match value {
            None => self,
            Some(align) => if align.spec_axis() != Some(SpecAxis::Vertical)
                && self.horizontal is None {
                AlignSlots { horizontal: Some(align), vertical: self.vertical }
            } else if align.spec_axis() != Some(SpecAxis::Horizontal) && self.vertical is None {
                AlignSlots { horizontal: self.horizontal, vertical: Some(align) }
            } else {
                self
            },
        }
    }

    /// Places an alignment given by position in the slot it fits, if that
    /// slot is still empty.
    pub fn place(self, value: Option<Align>) -> (r: AlignSlots)
        ensures
            r == self.spec_place(value),
    {
        match value {
            None => self,
            Some(align) => {
                let horizontal_fits = match align.axis() {
                    Some(SpecAxis::Horizontal) => true,
                    Some(SpecAxis::Vertical) => false,
                    None => true,
                };
                let vertical_fits = match align.axis() {
                    Some(SpecAxis::Horizontal) => false,
                    Some(SpecAxis::Vertical) => true,
                    None => true,
                };
                if horizontal_fits && self.horizontal.is_none() {
                    AlignSlots { horizontal: Some(align), vertical: self.vertical }
                } else if vertical_fits && self.vertical.is_none() {
                    AlignSlots { horizontal: self.horizontal, vertical: Some(align) }
                } else {
                    self
                }
            },
        }
    }

    /// The style with the alignments of the filled slots: the horizontal
    /// one for text, the vertical one for paragraphs.
    pub open spec fn spec_apply(self, style: Style) -> Style {
        Style {
            page: style.page,
            text: match self.horizontal {
                Some(align) => TextStyle { align },
                None => style.text,
            },
            par: match self.vertical {
                Some(align) => ParStyle { align },
                None => style.par,
            },
        }
    }

    /// Sets the alignments of the filled slots in a style.
    pub fn apply(self, style: &mut Style)
        ensures
            *final(style) == self.spec_apply(*old(style)),
    {
        if let Some(horizontal) = self.horizontal {
            style.text_mut().align = horizontal;
        }
        if let Some(vertical) = self.vertical {
            style.par_mut().align = vertical;
        }
    }
}

/// Taking the alignments from the arguments of a call: up to two by
/// position, then `horizontal` and `vertical` by name. Those given by name
/// fill their slots first.
pub open spec fn spec_align_slots(items: Seq<Arg>) -> Taken<Result<AlignSlots, ErrorView>> {
    let first = spec_eat::<Align>(items);
    let second = spec_eat::<Align>(first.rest);
    let horizontal = spec_named::<Align>(second.rest, "horizontal"@);
    let vertical = spec_named::<Align>(horizontal.rest, "vertical"@);
    if horizontal.got is Err {
        Taken { got: Err(horizontal.got->Err_0), rest: horizontal.rest }
    } else if vertical.got is Err {
        Taken { got: Err(vertical.got->Err_0), rest: vertical.rest }
    } else {
        Taken {
            got: Ok(
                AlignSlots {
                    horizontal: unspanned(horizontal.got->Ok_0),
                    vertical: unspanned(vertical.got->Ok_0),
                }.spec_place(unspanned(first.got)).spec_place(unspanned(second.got)),
            ),
            rest: vertical.rest,
        }
    }
}

/// Takes the alignments from the arguments of a call.
pub fn align_slots(args: &mut Args) -> (r: Result<AlignSlots, Error>)
    ensures
        final(args).span == old(args).span,
        final(args)@ == spec_align_slots(old(args)@).rest,
        match r {
            Ok(slots) => spec_align_slots(old(args)@).got == Ok::<AlignSlots, ErrorView>(slots),
            Err(e) => spec_align_slots(old(args)@).got == Err::<AlignSlots, ErrorView>(e@),
        },
{
    let first = args.eat::<Align>();
    let second = args.eat::<Align>();
    let horizontal = args.named::<Align>("horizontal")?;
    let vertical = args.named::<Align>("vertical")?;
    let slots = AlignSlots { horizontal, vertical };
    Ok(slots.place(first).place(second))
}

/// What `align` makes of a style, given the arguments of the call: the
/// style is changed only where the alignments could be taken.
pub open spec fn spec_align(style: Style, items: Seq<Arg>) -> Style {
    match spec_align_slots(items).got {
        Ok(slots) => slots.spec_apply(style),
        Err(_) => style,
    }
}

/// `align`: Configure the alignment along the layouting axes.
///
/// The horizontal alignment becomes that of text, the vertical one that of
/// paragraphs. Where an argument given by name is of the wrong kind, the
/// style stays as it was.
pub fn align(ctx: &mut EvalContext, args: &mut Args) -> (r: TypResult<Value>)
    ensures
        final(args).span == old(args).span,
        final(args)@ == spec_align_slots(old(args)@).rest,
        final(ctx).style == spec_align(old(ctx).style, old(args)@),
        match r {
            Ok(value) => value is Nothing && spec_align_slots(old(args)@).got is Ok,
            Err(e) => spec_align_slots(old(args)@).got == Err::<AlignSlots, ErrorView>(e@),
        },
{
    let slots = align_slots(args)?;
    slots.apply(&mut ctx.style);
    Ok(Value::Nothing)
}

/// A horizontal and a vertical alignment end in the same slots in
/// whichever order they are placed, whatever the slots held before.
pub proof fn lemma_place_order(slots: AlignSlots, a: Align, b: Align)
    requires
        a.spec_axis() is Some,
        b.spec_axis() is Some,
        a.spec_axis() != b.spec_axis(),
    ensures
        slots.spec_place(Some(a)).spec_place(Some(b)) == slots.spec_place(Some(b)).spec_place(
            Some(a),
        ),
{
}

/// `linebreak`: Start a new line.
pub fn linebreak(ctx: &mut EvalContext, args: &mut Args) -> (r: TypResult<Value>)
    ensures
        *final(ctx) == *old(ctx),
        *final(args) == *old(args),
        r matches Ok(value) && value == Value::Node(Node::Linebreak),
{
    Ok(Value::Node(Node::Linebreak))
}

/// `parbreak`: Start a new paragraph.
pub fn parbreak(ctx: &mut EvalContext, args: &mut Args) -> (r: TypResult<Value>)
    ensures
        *final(ctx) == *old(ctx),
        *final(args) == *old(args),
        r matches Ok(value) && value == Value::Node(Node::Parbreak),
{
    Ok(Value::Node(Node::Parbreak))
}

/// `pagebreak`: Start a new page.
pub fn pagebreak(ctx: &mut EvalContext, args: &mut Args) -> (r: TypResult<Value>)
    ensures
        *final(ctx) == *old(ctx),
        *final(args) == *old(args),
        r matches Ok(value) && value == Value::Node(Node::Pagebreak),
{
    Ok(Value::Node(Node::Pagebreak))
}

/// What `h` and `v` return for the arguments of a call written at `span`:
/// spacing along `axis` by the amount that the next positional argument
/// gives.
pub open spec fn spec_spacing(axis: GenAxis, items: Seq<Arg>, span: Span) -> Result<
    Value,
    ErrorView,
> {
    match spec_expect::<Linear>(items, span, "spacing"@).got {
        Ok(amount) => Ok(Value::Node(Node::Spacing(axis, amount))),
        Err(e) => Err(e),
    }
}

/// Whether a result is what the model says, the error taken by its view.
pub open spec fn same_result(r: TypResult<Value>, model: Result<Value, ErrorView>) -> bool {
    match r {
        Ok(value) => model == Ok::<Value, ErrorView>(value),
        Err(e) => model == Err::<Value, ErrorView>(e@),
    }
}

/// `h`: Horizontal spacing.
///
/// The amount is the next positional argument, which must be there and be
/// a length, a share or both.
pub fn h(ctx: &mut EvalContext, args: &mut Args) -> (r: TypResult<Value>)
    ensures
        *final(ctx) == *old(ctx),
        final(args).span == old(args).span,
        final(args)@ == spec_expect::<Linear>(old(args)@, old(args).span, "spacing"@).rest,
        same_result(r, spec_spacing(GenAxis::Inline, old(args)@, old(args).span)),
{
    let spacing = args.expect::<Linear>("spacing")?;
    Ok(Value::Node(Node::Spacing(GenAxis::Inline, spacing)))
}

/// `v`: Vertical spacing.
///
/// The amount is the next positional argument, which must be there and be
/// a length, a share or both.
pub fn v(ctx: &mut EvalContext, args: &mut Args) -> (r: TypResult<Value>)
    ensures
        *final(ctx) == *old(ctx),
        final(args).span == old(args).span,
        final(args)@ == spec_expect::<Linear>(old(args)@, old(args).span, "spacing"@).rest,
        same_result(r, spec_spacing(GenAxis::Block, old(args)@, old(args).span)),
{
    let spacing = args.expect::<Linear>("spacing")?;
    Ok(Value::Node(Node::Spacing(GenAxis::Block, spacing)))
}

/// What `block` returns for the arguments of a call written at `span`: the
/// next positional argument, which must be content, in block form.
pub open spec fn spec_block(style: Style, items: Seq<Arg>, span: Span) -> Result<
    Value,
    ErrorView,
> {
    match spec_expect::<Node>(items, span, "body"@).got {
        Ok(body) => Ok(Value::Node(Node::Block(body.spec_to_block(style)))),
        Err(e) => Err(e),
    }
}

/// `block`: Place content in a block.
pub fn block(ctx: &mut EvalContext, args: &mut Args) -> (r: TypResult<Value>)
    ensures
        *final(ctx) == *old(ctx),
        final(args).span == old(args).span,
        final(args)@ == spec_expect::<Node>(old(args)@, old(args).span, "body"@).rest,
        same_result(r, spec_block(old(ctx).style, old(args)@, old(args).span)),
{
    let body = args.expect::<Node>("body")?;
    Ok(Value::Node(Node::block(body.to_block(&ctx.style))))
}

/// What a call of `box` asks for.
pub struct BoxSettings {
    pub width: Option<Linear>,
    pub height: Option<Linear>,
    pub fill: Option<Color>,
    /// The content of the box; without one the box holds empty content.
    pub body: Option<Node>,
}

/// Taking the settings of a box from the arguments of a call: `width`,
/// `height` and `fill` by name, then the next positional argument if it is
/// content.
pub open spec fn spec_box_settings(items: Seq<Arg>) -> Taken<Result<BoxSettings, ErrorView>> {
    let width = spec_named::<Linear>(items, "width"@);
    let height = spec_named::<Linear>(width.rest, "height"@);
    let fill = spec_named::<Color>(height.rest, "fill"@);
    let body = spec_eat::<Node>(fill.rest);
    if width.got is Err {
        Taken { got: Err(width.got->Err_0), rest: width.rest }
    } else if height.got is Err {
        Taken { got: Err(height.got->Err_0), rest: height.rest }
    } else if fill.got is Err {
        Taken { got: Err(fill.got->Err_0), rest: fill.rest }
    } else {
        Taken {
            got: Ok(
                BoxSettings {
                    width: unspanned(width.got->Ok_0),
                    height: unspanned(height.got->Ok_0),
                    fill: unspanned(fill.got->Ok_0),
                    body: unspanned(body.got),
                },
            ),
            rest: body.rest,
        }
    }
}

/// Whether a value is the box that the settings describe, its content
/// lowered under `style`.
pub open spec fn is_box(value: Value, settings: BoxSettings, style: Style) -> bool {
    &&& value matches Value::Node(Node::Inline(PackedNode::Shape(shape)))
    &&& shape.shape == ShapeKind::Rect
    &&& shape.width == settings.width
    &&& shape.height == settings.height
    &&& shape.fill == match settings.fill {
        Some(color) => Some(Paint::Color(color)),
        None => None,
    }
    &&& match settings.body {
        Some(body) => shape.child == Some(body.spec_to_block(style)),
        None => shape.child matches Some(PackedNode::Flow(content, captured)) && captured == style
            && content.is_empty(),
    }
}

/// `box`: Place content in a rectangular box.
///
/// Without content the box holds empty content; that is no error. The
/// content is lowered under the style in force.
pub fn boxed(ctx: &mut EvalContext, args: &mut Args) -> (r: TypResult<Value>)
    ensures
        *final(ctx) == *old(ctx),
        final(args).span == old(args).span,
        final(args)@ == spec_box_settings(old(args)@).rest,
        match r {
            Ok(value) => spec_box_settings(old(args)@).got matches Ok(settings) && is_box(
                value,
                settings,
                old(ctx).style,
            ),
            Err(e) => spec_box_settings(old(args)@).got == Err::<BoxSettings, ErrorView>(e@),
        },
{
    let width = args.named::<Linear>("width")?;
    let height = args.named::<Linear>("height")?;
    let fill = args.named::<Color>("fill")?;
    let body = match args.eat::<Node>() {
        Some(node) => node,
        None => Node::empty(),
    };
    let paint = match fill {
        Some(color) => Some(Paint::Color(color)),
        None => None,
    };
    let shape = ShapeNode {
        shape: ShapeKind::Rect,
        width,
        height,
        fill: paint,
        child: Some(body.to_block(&ctx.style)),
    };
    Ok(Value::Node(Node::inline(PackedNode::Shape(Box::new(shape)))))
}

/// The value of an option of a linear value, or zero.
pub open spec fn or_zero(value: Option<Linear>) -> Linear {
    match value {
        Some(v) => v,
        None => Linear::spec_zero(),
    }
}

/// The padding of the four sides: each side takes its own value, else the
/// value given for all, else zero.
pub open spec fn spec_padding(
    all: Option<Linear>,
    left: Option<Linear>,
    top: Option<Linear>,
    right: Option<Linear>,
    bottom: Option<Linear>,
) -> Sides<Linear> {
    Sides {
        left: or_zero(first_of(left, all)),
        top: or_zero(first_of(top, all)),
        right: or_zero(first_of(right, all)),
        bottom: or_zero(first_of(bottom, all)),
    }
}

/// The padding of one side: its own value, else the value given for all,
/// else zero.
fn side_padding(own: Option<Linear>, all: Option<Linear>) -> (r: Linear)
    ensures
        r == or_zero(first_of(own, all)),
{
    match own {
        Some(v) => v,
        None => match all {
            Some(v) => v,
            None => Linear::zero(),
        },
    }
}

/// The padding of the four sides: each side takes its own value, else the
/// value given for all, else zero.
pub fn padding(
    all: Option<Linear>,
    left: Option<Linear>,
    top: Option<Linear>,
    right: Option<Linear>,
    bottom: Option<Linear>,
) -> (r: Sides<Linear>)
    ensures
        r == spec_padding(all, left, top, right, bottom),
{
    Sides::new(
        side_padding(left, all),
        side_padding(top, all),
        side_padding(right, all),
        side_padding(bottom, all),
    )
}

/// Padding given for all sides only is the padding of each side.
pub proof fn lemma_uniform_padding(all: Linear)
    ensures
        spec_padding(Some(all), None, None, None, None) == Sides::<Linear>::spec_splat(all),
{
}

/// What `pad` returns for the arguments of a call written at `span`: the
/// value for all sides is the next positional argument if it is a linear
/// value; `left`, `top`, `right` and `bottom` are taken by name; the body
/// is the next positional argument after that and must be content.
pub open spec fn spec_pad(style: Style, items: Seq<Arg>, span: Span) -> Taken<
    Result<Value, ErrorView>,
> {
    let all = spec_eat::<Linear>(items);
    let left = spec_named::<Linear>(all.rest, "left"@);
    let top = spec_named::<Linear>(left.rest, "top"@);
    let right = spec_named::<Linear>(top.rest, "right"@);
    let bottom = spec_named::<Linear>(right.rest, "bottom"@);
    let body = spec_expect::<Node>(bottom.rest, span, "body"@);
    if left.got is Err {
        Taken { got: Err(left.got->Err_0), rest: left.rest }
    } else if top.got is Err {
        Taken { got: Err(top.got->Err_0), rest: top.rest }
    } else if right.got is Err {
        Taken { got: Err(right.got->Err_0), rest: right.rest }
    } else if bottom.got is Err {
        Taken { got: Err(bottom.got->Err_0), rest: bottom.rest }
    } else if body.got is Err {
        Taken { got: Err(body.got->Err_0), rest: body.rest }
    } else {
        Taken {
            got: Ok(
                Value::Node(
                    Node::Block(
                        PackedNode::Pad(
                            Box::new(
                                PadNode {
                                    padding: spec_padding(
                                        unspanned(all.got),
                                        unspanned(left.got->Ok_0),
                                        unspanned(top.got->Ok_0),
                                        unspanned(right.got->Ok_0),
                                        unspanned(bottom.got->Ok_0),
                                    ),
                                    child: body.got->Ok_0.spec_to_block(style),
                                },
                            ),
                        ),
                    ),
                ),
            ),
            rest: body.rest,
        }
    }
}

/// `pad`: Pad content at the sides.
pub fn pad(ctx: &mut EvalContext, args: &mut Args) -> (r: TypResult<Value>)
    ensures
        *final(ctx) == *old(ctx),
        final(args).span == old(args).span,
        final(args)@ == spec_pad(old(ctx).style, old(args)@, old(args).span).rest,
        same_result(r, spec_pad(old(ctx).style, old(args)@, old(args).span).got),
{
    let all = args.eat::<Linear>();
    let left = args.named::<Linear>("left")?;
    let top = args.named::<Linear>("top")?;
    let right = args.named::<Linear>("right")?;
    let bottom = args.named::<Linear>("bottom")?;
    let body = args.expect::<Node>("body")?;
    let node = PadNode {
        padding: padding(all, left, top, right, bottom),
        child: body.to_block(&ctx.style),
    };
    Ok(Value::Node(Node::block(PackedNode::Pad(Box::new(node)))))
}

/// One positional argument of `stack`: spacing or content.
#[derive(Debug, PartialEq, Eq)]
pub enum StackInput {
    /// Spacing of the given amount.
    Spacing(Linear),
    /// Content to be stacked.
    Any(Node),
}

impl View for StackInput {
    type V = StackInput;

    open spec fn view(&self) -> StackInput {
        *self
    }
}

impl Cast for StackInput {
    open spec fn accepted() -> Seq<ValueKind> {
        seq![ValueKind::Length, ValueKind::Relative, ValueKind::Linear, ValueKind::Node]
    }

    open spec fn described() -> Seq<char> {
        "linear or template"@
    }

    open spec fn spec_cast(value: Value) -> StackInput {
        match value {
            Value::Node(node) => StackInput::Any(node),
            other => StackInput::Spacing(Linear::spec_cast(other)),
        }
    }

    fn is(value: &Value) -> (b: bool) {
        assert(Self::accepted()[0] == ValueKind::Length);
        assert(Self::accepted()[1] == ValueKind::Relative);
        assert(Self::accepted()[2] == ValueKind::Linear);
        assert(Self::accepted()[3] == ValueKind::Node);
        match value {
            Value::Length(_) => true,
            Value::Relative(_) => true,
            Value::Linear(_) => true,
            Value::Node(_) => true,
            _ => false,
        }
    }

    fn description() -> (text: &'static str) {
        "linear or template"
    }

    proof fn lemma_described(k: int) {
        let text = Self::described();
        reveal_strlit("linear or template");
        reveal_strlit("linear");
        assert(text.subrange(0, 6) =~= "linear"@);
        lemma_occurs_at("linear"@, text, 0);
        reveal_strlit("template");
        assert(text.subrange(10, 18) =~= "template"@);
        lemma_occurs_at("template"@, text, 10);
        assert(Self::accepted()[0] == ValueKind::Length);
        assert(Self::accepted()[1] == ValueKind::Relative);
        assert(Self::accepted()[2] == ValueKind::Linear);
        assert(Self::accepted()[3] == ValueKind::Node);
    }

    fn convert(value: Value) -> (out: StackInput) {
        match value {
            Value::Length(v) => StackInput::Spacing(Linear::from_length(v)),
            Value::Relative(v) => StackInput::Spacing(Linear::from_relative(v)),
            Value::Linear(v) => StackInput::Spacing(v),
            Value::Node(node) => StackInput::Any(node),
            _ => unreached(),
        }
    }
}

/// The spacing that is due before the input at place `k`: the default
/// spacing, where there is one and the input just before is content.
pub open spec fn due_spacing(inputs: Seq<StackInput>, k: int, spacing: Option<Linear>) -> Option<
    Linear,
> {
    if k > 0 && inputs[k - 1] is Any {
        spacing
    } else {
        None
    }
}

/// The children that the input at place `k` gives: spacing gives itself;
/// content gives itself in block form with the paragraph alignment of
/// `style`, after the spacing that is due before it.
pub open spec fn stack_piece(
    inputs: Seq<StackInput>,
    k: int,
    spacing: Option<Linear>,
    style: Style,
) -> Seq<StackChild> {
    match inputs[k] {
        StackInput::Spacing(amount) => seq![StackChild::Spacing(amount)],
        StackInput::Any(node) => {
            let child = StackChild::Any(node.spec_to_block(style), style.par.align);
            match due_spacing(inputs, k, spacing) {
                Some(amount) => seq![StackChild::Spacing(amount), child],
                None => seq![child],
            }
        },
    }
}

/// The children of a stack: what each of the first `n` inputs gives, in
/// order.
pub open spec fn stack_pieces(
    inputs: Seq<StackInput>,
    n: int,
    spacing: Option<Linear>,
    style: Style,
) -> Seq<StackChild>
    decreases n,
{
    if n <= 0 {
        Seq::empty()
    } else {
        stack_pieces(inputs, n - 1, spacing, style) + stack_piece(inputs, n - 1, spacing, style)
    }
}

/// The children of a stack built from `inputs` with the default `spacing`
/// under `style`.
pub open spec fn spec_stack_children(
    inputs: Seq<StackInput>,
    spacing: Option<Linear>,
    style: Style,
) -> Seq<StackChild> {
    stack_pieces(inputs, inputs.len() as int, spacing, style)
}

/// The child that an input gives by itself.
pub open spec fn own_child(input: StackInput, style: Style) -> StackChild {
    match input {
        StackInput::Spacing(amount) => StackChild::Spacing(amount),
        StackInput::Any(node) => StackChild::Any(node.spec_to_block(style), style.par.align),
    }
}

/// Two pieces of content that follow each other get the default spacing
/// between them, once, and none before or after.
pub proof fn lemma_stack_default_spacing(a: Node, b: Node, spacing: Linear, style: Style)
    ensures
        spec_stack_children(seq![StackInput::Any(a), StackInput::Any(b)], Some(spacing), style)
            == seq![
            own_child(StackInput::Any(a), style),
            StackChild::Spacing(spacing),
            own_child(StackInput::Any(b), style),
        ],
{
    reveal_with_fuel(stack_pieces, 3);
    let inputs = seq![StackInput::Any(a), StackInput::Any(b)];
    assert(spec_stack_children(inputs, Some(spacing), style) =~= seq![
        own_child(StackInput::Any(a), style),
        StackChild::Spacing(spacing),
        own_child(StackInput::Any(b), style),
    ]);
}

/// Spacing written between two pieces of content takes the place of the
/// default spacing.
pub proof fn lemma_stack_explicit_spacing(
    a: Node,
    between: Linear,
    b: Node,
    spacing: Option<Linear>,
    style: Style,
)
    ensures
        spec_stack_children(
            seq![StackInput::Any(a), StackInput::Spacing(between), StackInput::Any(b)],
            spacing,
            style,
        ) == seq![
            own_child(StackInput::Any(a), style),
            StackChild::Spacing(between),
            own_child(StackInput::Any(b), style),
        ],
{
    reveal_with_fuel(stack_pieces, 4);
    let inputs = seq![StackInput::Any(a), StackInput::Spacing(between), StackInput::Any(b)];
    assert(spec_stack_children(inputs, spacing, style) =~= seq![
        own_child(StackInput::Any(a), style),
        StackChild::Spacing(between),
        own_child(StackInput::Any(b), style),
    ]);
}

/// The children that the first `n` inputs give end with the own child of
/// the last of them, and begin with the own child of the first.
pub proof fn lemma_stack_pieces_ends(
    inputs: Seq<StackInput>,
    n: int,
    spacing: Option<Linear>,
    style: Style,
)
    requires
        0 < n <= inputs.len(),
    ensures
        stack_pieces(inputs, n, spacing, style).len() >= n,
        stack_pieces(inputs, n, spacing, style).first() == own_child(inputs[0], style),
        stack_pieces(inputs, n, spacing, style).last() == own_child(inputs[n - 1], style),
    decreases n,
{
    reveal_with_fuel(stack_pieces, 2);
    if n > 1 {
        lemma_stack_pieces_ends(inputs, n - 1, spacing, style);
    }
}

/// A stack neither begins nor ends with spacing that was not written: its
/// first child is that of the first input, its last that of the last.
pub proof fn lemma_stack_ends(inputs: Seq<StackInput>, spacing: Option<Linear>, style: Style)
    requires
        inputs.len() > 0,
    ensures
        spec_stack_children(inputs, spacing, style).first() == own_child(inputs.first(), style),
        spec_stack_children(inputs, spacing, style).last() == own_child(inputs.last(), style),
{
    lemma_stack_pieces_ends(inputs, inputs.len() as int, spacing, style);
}

/// Builds the children of a stack: the default spacing comes between two
/// pieces of content that follow each other, and nowhere else.
pub fn stack_children(inputs: Vec<StackInput>, spacing: Option<Linear>, style: &Style) -> (r: Vec<
    StackChild,
>)
    ensures
        r@ == spec_stack_children(inputs@, spacing, *style),
{
    let mut children: Vec<StackChild> = Vec::new();
    let mut delayed: Option<Linear> = None;
    for input in it: inputs
        invariant
            children@ == stack_pieces(it.seq(), it.index() as int, spacing, *style),
            delayed == due_spacing(it.seq(), it.index() as int, spacing),
    {
        let ghost before = children@;
        match input {
            StackInput::Spacing(amount) => {
                children.push(StackChild::Spacing(amount));
                delayed = None;
            },
            StackInput::Any(node) => {
                if let Some(amount) = delayed {
                    children.push(StackChild::Spacing(amount));
                }
                children.push(StackChild::Any(node.to_block(style), style.par.align));
                delayed = spacing;
            },
        }
        proof {
            assert(children@ =~= before + stack_piece(
                it.seq(),
                it.index() as int,
                spacing,
                *style,
            ));
        }
    }
    children
}

/// What a call of `stack` asks for.
pub struct StackSettings {
    pub dir: Dir,
    pub spacing: Option<Linear>,
    pub inputs: Seq<StackInput>,
}

/// Taking the settings of a stack from the arguments of a call: `dir` and
/// `spacing` by name, then all positional arguments. The direction is from
/// top to bottom where none is given.
pub open spec fn spec_stack_settings(items: Seq<Arg>) -> Taken<Result<StackSettings, ErrorView>> {
    let dir = spec_named::<Dir>(items, "dir"@);
    let spacing = spec_named::<Linear>(dir.rest, "spacing"@);
    let inputs = spec_all::<StackInput>(spacing.rest);
    if dir.got is Err {
        Taken { got: Err(dir.got->Err_0), rest: dir.rest }
    } else if spacing.got is Err {
        Taken { got: Err(spacing.got->Err_0), rest: spacing.rest }
    } else if inputs.got is Err {
        Taken { got: Err(inputs.got->Err_0), rest: inputs.rest }
    } else {
        Taken {
            got: Ok(
                StackSettings {
                    dir: match unspanned(dir.got->Ok_0) {
                        Some(d) => d,
                        None => Dir::TTB,
                    },
                    spacing: unspanned(spacing.got->Ok_0),
                    inputs: inputs.got->Ok_0,
                },
            ),
            rest: inputs.rest,
        }
    }
}

/// Whether a value is the stack that the settings describe, built under
/// `style`.
pub open spec fn is_stack(value: Value, settings: StackSettings, style: Style) -> bool {
    &&& value matches Value::Node(Node::Block(PackedNode::Stack(node)))
    &&& node@ == StackView {
        dir: settings.dir,
        children: spec_stack_children(settings.inputs, settings.spacing, style),
    }
}

/// `stack`: Stack children along an axis.
///
/// Each child takes the paragraph alignment in force when the stack is
/// built.
pub fn stack(ctx: &mut EvalContext, args: &mut Args) -> (r: TypResult<Value>)
    ensures
        *final(ctx) == *old(ctx),
        final(args).span == old(args).span,
        final(args)@ == spec_stack_settings(old(args)@).rest,
        match r {
            Ok(value) => spec_stack_settings(old(args)@).got matches Ok(settings) && is_stack(
                value,
                settings,
                old(ctx).style,
            ),
            Err(e) => spec_stack_settings(old(args)@).got == Err::<StackSettings, ErrorView>(e@),
        },
{
    let dir = match args.named::<Dir>("dir")? {
        Some(d) => d,
        None => Dir::TTB,
    };
    let spacing = args.named::<Linear>("spacing")?;
    let inputs = args.all::<StackInput>()?;
    proof {
        assert(inputs@.map_values(view_of::<StackInput>()) =~= inputs@);
    }
    let children = stack_children(inputs, spacing, &ctx.style);
    Ok(Value::Node(Node::block(PackedNode::Stack(StackNode { dir, children }))))
}

/// The one track that a value stands for, if it stands for one: `auto`,
/// a length, a share, both, or a weight.
pub open spec fn spec_track(value: Value) -> Option<TrackSizing> {
    match value {
        Value::Auto => Some(TrackSizing::Auto),
        Value::Length(v) => Some(TrackSizing::Linear(Linear::spec_from_length(v))),
        Value::Relative(v) => Some(TrackSizing::Linear(Linear::spec_from_relative(v))),
        Value::Linear(v) => Some(TrackSizing::Linear(v)),
        Value::Fractional(v) => Some(TrackSizing::Fractional(v)),
        _ => None,
    }
}

/// The one track that a value stands for, if it stands for one.
pub fn track_of(value: &Value) -> (r: Option<TrackSizing>)
    ensures
        r == spec_track(*value),
{
    match value {
        Value::Auto => Some(TrackSizing::Auto),
        Value::Length(v) => Some(TrackSizing::Linear(Linear::from_length(*v))),
        Value::Relative(v) => Some(TrackSizing::Linear(Linear::from_relative(*v))),
        Value::Linear(v) => Some(TrackSizing::Linear(*v)),
        Value::Fractional(v) => Some(TrackSizing::Fractional(*v)),
        _ => None,
    }
}

impl Cast for TrackSizing {
    open spec fn accepted() -> Seq<ValueKind> {
        seq![
            ValueKind::Auto,
            ValueKind::Length,
            ValueKind::Relative,
            ValueKind::Linear,
            ValueKind::Fractional,
        ]
    }

    open spec fn described() -> Seq<char> {
        "auto, linear, or fractional"@
    }

    open spec fn spec_cast(value: Value) -> TrackSizing {
        match spec_track(value) {
            Some(track) => track,
            None => TrackSizing::Auto,
        }
    }

    fn is(value: &Value) -> (b: bool) {
        assert(Self::accepted()[0] == ValueKind::Auto);
        assert(Self::accepted()[1] == ValueKind::Length);
        assert(Self::accepted()[2] == ValueKind::Relative);
        assert(Self::accepted()[3] == ValueKind::Linear);
        assert(Self::accepted()[4] == ValueKind::Fractional);
        track_of(value).is_some()
    }

    fn description() -> (text: &'static str) {
        "auto, linear, or fractional"
    }

    proof fn lemma_described(k: int) {
        let text = Self::described();
        reveal_strlit("auto, linear, or fractional");
        reveal_strlit("auto");
        assert(text.subrange(0, 4) =~= "auto"@);
        lemma_occurs_at("auto"@, text, 0);
        reveal_strlit("linear");
        assert(text.subrange(6, 12) =~= "linear"@);
        lemma_occurs_at("linear"@, text, 6);
        reveal_strlit("fractional");
        assert(text.subrange(17, 27) =~= "fractional"@);
        lemma_occurs_at("fractional"@, text, 17);
        assert(Self::accepted()[0] == ValueKind::Auto);
        assert(Self::accepted()[1] == ValueKind::Length);
        assert(Self::accepted()[2] == ValueKind::Relative);
        assert(Self::accepted()[3] == ValueKind::Linear);
        assert(Self::accepted()[4] == ValueKind::Fractional);
    }

    fn convert(value: Value) -> (out: TrackSizing) {
        match track_of(&value) {
            Some(track) => track,
            None => unreached(),
        }
    }
}

/// The rule by which the values of an array give tracks.
pub open spec fn track_rule() -> spec_fn(Value) -> Option<TrackSizing> {
    |value: Value| spec_track(value)
}

/// How many tracks a count stands for: the count, or none if it is
/// negative.
pub open spec fn track_count(count: i64) -> nat {
    if count > 0 {
        count as nat
    } else {
        0
    }
}

/// A run of `auto` tracks of the given length.
pub open spec fn auto_run(len: nat) -> Seq<TrackSizing> {
    Seq::new(len, |i: int| TrackSizing::Auto)
}

/// The tracks that a value stands for: an integer gives that many `auto`
/// tracks, an array one track for each of its values that stands for a
/// track, any other value the one track it stands for.
pub open spec fn spec_tracks(value: Value) -> Seq<TrackSizing> {
    match value {
        Value::Int(count) => auto_run(track_count(count)),
        Value::Array(values) => values@.filter_map(track_rule()),
        other => match spec_track(other) {
            Some(track) => seq![track],
            None => Seq::empty(),
        },
    }
}

/// That many `auto` tracks, none for a negative count.
pub fn auto_tracks(count: i64) -> (r: Vec<TrackSizing>)
    ensures
        r@ == auto_run(track_count(count)),
{
    let mut tracks: Vec<TrackSizing> = Vec::new();
    let mut made: i64 = 0;
    while made < count
        invariant
            0 <= made <= track_count(count),
            tracks@ == auto_run(made as nat),
        decreases count - made,
    {
        tracks.push(TrackSizing::Auto);
        made += 1;
        proof {
            assert(tracks@ =~= auto_run(made as nat));
        }
    }
    tracks
}

/// One track for each value that stands for a track, in order; the other
/// values are passed over.
pub fn array_tracks(values: &Vec<Value>) -> (r: Vec<TrackSizing>)
    ensures
        r@ == values@.filter_map(track_rule()),
{
    let mut tracks: Vec<TrackSizing> = Vec::new();
    let mut i: usize = 0;
    while i < values.len()
        invariant
            i <= values.len(),
            tracks@ == values@.take(i as int).filter_map(track_rule()),
        decreases values.len() - i,
    {
        proof {
            values@.lemma_filter_map_take_succ(track_rule(), i as int);
        }
        if let Some(track) = track_of(&values[i]) {
            tracks.push(track);
        }
        i += 1;
    }
    proof {
        assert(values@.take(i as int) =~= values@);
    }
    tracks
}

impl Cast for Vec<TrackSizing> {
    open spec fn accepted() -> Seq<ValueKind> {
        seq![
            ValueKind::Auto,
            ValueKind::Length,
            ValueKind::Relative,
            ValueKind::Linear,
            ValueKind::Fractional,
            ValueKind::Int,
            ValueKind::Array,
        ]
    }

    open spec fn described() -> Seq<char> {
        "integer or (auto, linear, fractional, or array thereof)"@
    }

    open spec fn spec_cast(value: Value) -> Seq<TrackSizing> {
        spec_tracks(value)
    }

    fn is(value: &Value) -> (b: bool) {
        assert(Self::accepted()[0] == ValueKind::Auto);
        assert(Self::accepted()[1] == ValueKind::Length);
        assert(Self::accepted()[2] == ValueKind::Relative);
        assert(Self::accepted()[3] == ValueKind::Linear);
        assert(Self::accepted()[4] == ValueKind::Fractional);
        assert(Self::accepted()[5] == ValueKind::Int);
        assert(Self::accepted()[6] == ValueKind::Array);
        match value {
            Value::Int(_) => true,
            Value::Array(_) => true,
            other => track_of(other).is_some(),
        }
    }

    fn description() -> (text: &'static str) {
        "integer or (auto, linear, fractional, or array thereof)"
    }

    proof fn lemma_described(k: int) {
        let text = Self::described();
        reveal_strlit("integer or (auto, linear, fractional, or array thereof)");
        reveal_strlit("integer");
        assert(text.subrange(0, 7) =~= "integer"@);
        lemma_occurs_at("integer"@, text, 0);
        reveal_strlit("auto");
        assert(text.subrange(12, 16) =~= "auto"@);
        lemma_occurs_at("auto"@, text, 12);
        reveal_strlit("linear");
        assert(text.subrange(18, 24) =~= "linear"@);
        lemma_occurs_at("linear"@, text, 18);
        reveal_strlit("fractional");
        assert(text.subrange(26, 36) =~= "fractional"@);
        lemma_occurs_at("fractional"@, text, 26);
        reveal_strlit("array");
        assert(text.subrange(41, 46) =~= "array"@);
        lemma_occurs_at("array"@, text, 41);
        assert(Self::accepted()[0] == ValueKind::Auto);
        assert(Self::accepted()[1] == ValueKind::Length);
        assert(Self::accepted()[2] == ValueKind::Relative);
        assert(Self::accepted()[3] == ValueKind::Linear);
        assert(Self::accepted()[4] == ValueKind::Fractional);
        assert(Self::accepted()[5] == ValueKind::Int);
        assert(Self::accepted()[6] == ValueKind::Array);
    }

    fn convert(value: Value) -> (out: Vec<TrackSizing>) {
        match value {
            Value::Int(count) => auto_tracks(count),
            Value::Array(values) => array_tracks(&values),
            other => match track_of(&other) {
                Some(track) => {
                    let tracks = vec![track];
                    assert(tracks@ =~= seq![track]);
                    tracks
                },
                None => unreached(),
            },
        }
    }
}

/// A count that is not negative stands for that many tracks, all `auto`; a
/// negative count stands for none.
pub proof fn lemma_count_tracks(count: i64)
    ensures
        count >= 0 ==> spec_tracks(Value::Int(count)).len() == count,
        count < 0 ==> spec_tracks(Value::Int(count)).len() == 0,
        forall|i: int|
            0 <= i < spec_tracks(Value::Int(count)).len() ==> #[trigger] spec_tracks(
                Value::Int(count),
            )[i] == TrackSizing::Auto,
{
}

/// Where no gutter is given for an axis by itself, the gutter of both axes
/// is the one given for both.
pub proof fn lemma_gutter_for_both(settings: GridSettings, value: Value, style: Style)
    requires
        settings.column_gutter is None,
        settings.row_gutter is None,
        is_grid(value, settings, style),
    ensures
        value->Node_0->Block_0->Grid_0@.column_gutter == settings.gutter,
        value->Node_0->Block_0->Grid_0@.row_gutter == settings.gutter,
{
}

/// A copy of a list of tracks.
pub fn copy_tracks(tracks: &Vec<TrackSizing>) -> (r: Vec<TrackSizing>)
    ensures
        r@ == tracks@,
{
    let mut copy: Vec<TrackSizing> = Vec::new();
    let mut i: usize = 0;
    while i < tracks.len()
        invariant
            i <= tracks.len(),
            copy@ == tracks@.take(i as int),
        decreases tracks.len() - i,
    {
        copy.push(tracks[i]);
        i += 1;
        proof {
            assert(copy@ =~= tracks@.take(i as int));
        }
    }
    proof {
        assert(tracks@.take(i as int) =~= tracks@);
    }
    copy
}

/// The lowering of content under a style.
pub open spec fn lowered(style: Style) -> spec_fn(Node) -> PackedNode {
    |node: Node| node.spec_to_block(style)
}

/// Lowers each piece of content to block form under the given style.
pub fn lower_all(nodes: Vec<Node>, style: &Style) -> (r: Vec<PackedNode>)
    ensures
        r@ == nodes@.map_values(lowered(*style)),
{
    let mut blocks: Vec<PackedNode> = Vec::new();
    for node in it: nodes
        invariant
            blocks@ == it.seq().take(it.index() as int).map_values(lowered(*style)),
    {
        proof {
            it.seq().lemma_map_take_succ(lowered(*style), it.index() as int);
        }
        blocks.push(node.to_block(style));
    }
    blocks
}

/// What a call of `grid` asks for.
pub struct GridSettings {
    /// The sizing of the columns; no columns where none is given.
    pub columns: Seq<TrackSizing>,
    /// The sizing of the rows; no rows where none is given.
    pub rows: Seq<TrackSizing>,
    /// The gutter for both axes; none where none is given.
    pub gutter: Seq<TrackSizing>,
    /// The gutter between columns, where it is given by itself.
    pub column_gutter: Option<Seq<TrackSizing>>,
    /// The gutter between rows, where it is given by itself.
    pub row_gutter: Option<Seq<TrackSizing>>,
    /// The children, in order.
    pub children: Seq<Node>,
}

/// The tracks that were taken, or none.
pub open spec fn or_no_tracks(found: Option<Spanned<Seq<TrackSizing>>>) -> Seq<TrackSizing> {
    match found {
        Some(tracks) => tracks.v,
        None => Seq::empty(),
    }
}

/// The gutter of one axis: its own where it is given, else the gutter
/// given for both.
pub open spec fn axis_gutter(own: Option<Seq<TrackSizing>>, both: Seq<TrackSizing>) -> Seq<
    TrackSizing,
> {
    match own {
        Some(tracks) => tracks,
        None => both,
    }
}

/// Taking the settings of a grid from the arguments of a call: `columns`,
/// `rows`, `gutter`, `column-gutter` and `row-gutter` by name, then all
/// positional arguments, which must be content.
pub open spec fn spec_grid_settings(items: Seq<Arg>) -> Taken<Result<GridSettings, ErrorView>> {
    let columns = spec_named::<Vec<TrackSizing>>(items, "columns"@);
    let rows = spec_named::<Vec<TrackSizing>>(columns.rest, "rows"@);
    let gutter = spec_named::<Vec<TrackSizing>>(rows.rest, "gutter"@);
    let column_gutter = spec_named::<Vec<TrackSizing>>(gutter.rest, "column-gutter"@);
    let row_gutter = spec_named::<Vec<TrackSizing>>(column_gutter.rest, "row-gutter"@);
    let children = spec_all::<Node>(row_gutter.rest);
    if columns.got is Err {
        Taken { got: Err(columns.got->Err_0), rest: columns.rest }
    } else if rows.got is Err {
        Taken { got: Err(rows.got->Err_0), rest: rows.rest }
    } else if gutter.got is Err {
        Taken { got: Err(gutter.got->Err_0), rest: gutter.rest }
    } else if column_gutter.got is Err {
        Taken { got: Err(column_gutter.got->Err_0), rest: column_gutter.rest }
    } else if row_gutter.got is Err {
        Taken { got: Err(row_gutter.got->Err_0), rest: row_gutter.rest }
    } else if children.got is Err {
        Taken { got: Err(children.got->Err_0), rest: children.rest }
    } else {
        Taken {
            got: Ok(
                GridSettings {
                    columns: or_no_tracks(columns.got->Ok_0),
                    rows: or_no_tracks(rows.got->Ok_0),
                    gutter: or_no_tracks(gutter.got->Ok_0),
                    column_gutter: unspanned(column_gutter.got->Ok_0),
                    row_gutter: unspanned(row_gutter.got->Ok_0),
                    children: children.got->Ok_0,
                },
            ),
            rest: children.rest,
        }
    }
}

/// Whether a value is the grid that the settings describe, its children
/// lowered under `style`.
pub open spec fn is_grid(value: Value, settings: GridSettings, style: Style) -> bool {
    &&& value matches Value::Node(Node::Block(PackedNode::Grid(node)))
    &&& node@ == GridView {
        columns: settings.columns,
        rows: settings.rows,
        column_gutter: axis_gutter(settings.column_gutter, settings.gutter),
        row_gutter: axis_gutter(settings.row_gutter, settings.gutter),
        children: settings.children.map_values(lowered(style)),
    }
}

/// The tracks that were taken, or none.
fn tracks_or_none(found: Option<Vec<TrackSizing>>) -> (r: Vec<TrackSizing>)
    ensures
        r@ == match found {
            Some(tracks) => tracks@,
            None => Seq::empty(),
        },
{
    match found {
        Some(tracks) => tracks,
        None => Vec::new(),
    }
}

/// The gutters of the two axes: each its own where it is given, else the
/// gutter given for both.
pub fn gutters(
    both: Vec<TrackSizing>,
    column: Option<Vec<TrackSizing>>,
    row: Option<Vec<TrackSizing>>,
) -> (r: Spec<Vec<TrackSizing>>)
    ensures
        r.x@ == match column {
            Some(tracks) => tracks@,
            None => both@,
        },
        r.y@ == match row {
            Some(tracks) => tracks@,
            None => both@,
        },
{
    let x = match column {
        Some(tracks) => tracks,
        None => copy_tracks(&both),
    };
    let y = match row {
        Some(tracks) => tracks,
        None => both,
    };
    Spec::new(x, y)
}

/// `grid`: Arrange children into a grid.
///
/// The children are lowered under the style in force and kept in the order
/// of the call.
pub fn grid(ctx: &mut EvalContext, args: &mut Args) -> (r: TypResult<Value>)
    ensures
        *final(ctx) == *old(ctx),
        final(args).span == old(args).span,
        final(args)@ == spec_grid_settings(old(args)@).rest,
        match r {
            Ok(value) => spec_grid_settings(old(args)@).got matches Ok(settings) && is_grid(
                value,
                settings,
                old(ctx).style,
            ),
            Err(e) => spec_grid_settings(old(args)@).got == Err::<GridSettings, ErrorView>(e@),
        },
{
    let columns = tracks_or_none(args.named::<Vec<TrackSizing>>("columns")?);
    let rows = tracks_or_none(args.named::<Vec<TrackSizing>>("rows")?);
    let tracks = Spec::new(columns, rows);
    let base_gutter = tracks_or_none(args.named::<Vec<TrackSizing>>("gutter")?);
    let column_gutter = args.named::<Vec<TrackSizing>>("column-gutter")?;
    let row_gutter = args.named::<Vec<TrackSizing>>("row-gutter")?;
    let gutter = gutters(base_gutter, column_gutter, row_gutter);
    let nodes = args.all::<Node>()?;
    proof {
        assert(nodes@.map_values(view_of::<Node>()) =~= nodes@);
    }
    let children = lower_all(nodes, &ctx.style);
    Ok(Value::Node(Node::block(PackedNode::Grid(GridNode { tracks, gutter, children }))))
}

} // verus!
