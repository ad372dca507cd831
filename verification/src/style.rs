//! The cascading style that directives read and change.

use vstd::prelude::*;
use crate::geom::{Align, Length, Linear, Sides, Size};
use crate::paper::PaperClass;

verus! {

/// How pages are set up.
#[derive(Clone, Copy, Debug, PartialEq, Eq)]
pub struct PageStyle {
    /// The family of the page's paper.
    pub class: PaperClass,
    /// The width and height of the page.
    pub size: Size,
    /// The margin on each side; a side without one takes the default of
    /// the paper's family.
    pub margins: Sides<Option<Linear>>,
}

/// How text is set.
#[derive(Clone, Copy, Debug, PartialEq, Eq)]
pub struct TextStyle {
    /// The horizontal alignment of text.
    pub align: Align,
}

/// How paragraphs are set.
#[derive(Clone, Copy, Debug, PartialEq, Eq)]
pub struct ParStyle {
    /// The vertical alignment of paragraphs.
    pub align: Align,
}

/// The whole style: pages, text and paragraphs.
#[derive(Clone, Copy, Debug, PartialEq, Eq)]
pub struct Style {
    pub page: PageStyle,
    pub text: TextStyle,
    pub par: ParStyle,
}

impl Style {
    /// The style a document starts with: A4 pages with the margins of
    /// their family, text aligned left, paragraphs aligned at the top.
    pub open spec fn spec_default() -> Style {
        Style {
            page: PageStyle {
                class: PaperClass::Base,
                size: Size { w: Length { raw: 756000 }, h: Length { raw: 1069200 } },
                margins: Sides { left: None, top: None, right: None, bottom: None },
            },
            text: TextStyle { align: Align::Left },
            par: ParStyle { align: Align::Top },
        }
    }
}

impl Style {
    /// The page style, to be changed in place.
    pub fn page_mut(&mut self) -> (page: &mut PageStyle)
        ensures
            *page == old(self).page,
            *final(self) == (Style { page: *final(page), text: old(self).text, par: old(self).par }),
    {
        &mut self.page
    }

    /// The text style, to be changed in place.
    pub fn text_mut(&mut self) -> (text: &mut TextStyle)
        ensures
            *text == old(self).text,
            *final(self) == (Style { page: old(self).page, text: *final(text), par: old(self).par }),
    {
        &mut self.text
    }

    /// The paragraph style, to be changed in place.
    pub fn par_mut(&mut self) -> (par: &mut ParStyle)
        ensures
            *par == old(self).par,
            *final(self) == (Style { page: old(self).page, text: old(self).text, par: *final(par) }),
    {
        &mut self.par
    }
}

impl Default for Style {
    fn default() -> (r: Style)
        ensures
            r == Style::spec_default(),
    {
        Style {
            page: PageStyle {
                class: PaperClass::Base,
                size: Size { w: Length { raw: 756000 }, h: Length { raw: 1069200 } },
                margins: Sides { left: None, top: None, right: None, bottom: None },
            },
            text: TextStyle { align: Align::Left },
            par: ParStyle { align: Align::Top },
        }
    }
}

/// What a directive is evaluated against.
#[derive(Clone, Copy, Debug, PartialEq, Eq)]
pub struct EvalContext {
    /// The style in force at this point of the evaluation.
    pub style: Style,
}

impl EvalContext {
    /// A context that starts from the given style.
    pub fn new(style: Style) -> (r: EvalContext)
        ensures
            r.style == style,
    {
        EvalContext { style }
    }
}

} // verus!
