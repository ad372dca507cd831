//! Lengths, ratios and the small geometric containers built from them.
//!
//! Every quantity is an exact integer count of a fixed small unit, so that
//! equality of two quantities is equality of two integers.

use vstd::prelude::*;

verus! {

/// How many length units make one typographic point.
pub const UNITS_PER_PT: i64 = 1270;

/// How many length units make one millimetre.
pub const UNITS_PER_MM: i64 = 3600;

/// How many length units make one centimetre.
pub const UNITS_PER_CM: i64 = 36000;

/// How many length units make one inch.
pub const UNITS_PER_INCH: i64 = 91440;

/// How many ratio units make one percent.
pub const UNITS_PER_PERCENT: i64 = 10000;

/// How many weight units make one `fr`.
pub const UNITS_PER_FR: i64 = 1000;

/// An absolute distance, held as a whole number of length units.
///
/// The unit is chosen so that points, millimetres, centimetres and inches
/// are all whole multiples of it.
#[derive(Clone, Copy, Debug, PartialEq, Eq, Structural)]
pub struct Length {
    pub raw: i64,
}

impl Length {
    /// The zero length.
    pub fn zero() -> (r: Length)
        ensures
            r.raw == 0,
    {
        Length { raw: 0 }
    }

    /// A length of `n` raw units.
    pub fn raw(n: i64) -> (r: Length)
        ensures
            r.raw == n,
    {
        Length { raw: n }
    }

    /// A length of `n` points.
    pub fn pt(n: i32) -> (r: Length)
        ensures
            r.raw == n * UNITS_PER_PT,
    {
        let wide: i64 = n as i64;
        Length { raw: wide * UNITS_PER_PT }
    }

    /// A length of `n` millimetres.
    pub fn mm(n: i32) -> (r: Length)
        ensures
            r.raw == n * UNITS_PER_MM,
    {
        let wide: i64 = n as i64;
        Length { raw: wide * UNITS_PER_MM }
    }

    /// A length of `n` centimetres.
    pub fn cm(n: i32) -> (r: Length)
        ensures
            r.raw == n * UNITS_PER_CM,
    {
        let wide: i64 = n as i64;
        Length { raw: wide * UNITS_PER_CM }
    }

    /// A length of `n` inches.
    pub fn inches(n: i32) -> (r: Length)
        ensures
            r.raw == n * UNITS_PER_INCH,
    {
        let wide: i64 = n as i64;
        Length { raw: wide * UNITS_PER_INCH }
    }
}

/// A share of some reference extent, held as a whole number of ratio units.
#[derive(Clone, Copy, Debug, PartialEq, Eq, Structural)]
pub struct Relative {
    pub raw: i64,
}

impl Relative {
    /// No share at all.
    pub fn zero() -> (r: Relative)
        ensures
            r.raw == 0,
    {
        Relative { raw: 0 }
    }

    /// The whole reference extent.
    pub fn one() -> (r: Relative)
        ensures
            r.raw == 100 * UNITS_PER_PERCENT,
    {
        Relative { raw: 100 * UNITS_PER_PERCENT }
    }

    /// A share of `n` percent.
    pub fn percent(n: i32) -> (r: Relative)
        ensures
            r.raw == n * UNITS_PER_PERCENT,
    {
        let wide: i64 = n as i64;
        Relative { raw: wide * UNITS_PER_PERCENT }
    }
}

/// A weight for distributing leftover space, held as a whole number of
/// weight units.
#[derive(Clone, Copy, Debug, PartialEq, Eq, Structural)]
pub struct Fractional {
    pub raw: i64,
}

impl Fractional {
    /// A weight of `n` fr.
    pub fn fr(n: i32) -> (r: Fractional)
        ensures
            r.raw == n * UNITS_PER_FR,
    {
        let wide: i64 = n as i64;
        Fractional { raw: wide * UNITS_PER_FR }
    }
}

/// The sum of a share of a reference extent and an absolute length.
#[derive(Clone, Copy, Debug, PartialEq, Eq, Structural)]
pub struct Linear {
    pub rel: Relative,
    pub abs: Length,
}

impl Linear {
    /// The linear value with both parts zero.
    pub open spec fn spec_zero() -> Linear {
        Linear { rel: Relative { raw: 0 }, abs: Length { raw: 0 } }
    }

    /// The linear value that is exactly the length `abs`.
    pub open spec fn spec_from_length(abs: Length) -> Linear {
        Linear { rel: Relative { raw: 0 }, abs }
    }

    /// The linear value that is exactly the share `rel`.
    pub open spec fn spec_from_relative(rel: Relative) -> Linear {
        Linear { rel, abs: Length { raw: 0 } }
    }

    /// The linear value with both parts zero.
    #[verifier::when_used_as_spec(spec_zero)]
    pub fn zero() -> (r: Linear)
        ensures
            r == Linear::spec_zero(),
    {
        Linear { rel: Relative::zero(), abs: Length::zero() }
    }

    /// A linear value from its two parts.
    pub fn new(rel: Relative, abs: Length) -> (r: Linear)
        ensures
            r.rel == rel,
            r.abs == abs,
    {
        Linear { rel, abs }
    }

    /// Widens a length: the share is zero.
    #[verifier::when_used_as_spec(spec_from_length)]
    pub fn from_length(abs: Length) -> (r: Linear)
        ensures
            r == Linear::spec_from_length(abs),
    {
        Linear { rel: Relative::zero(), abs }
    }

    /// Widens a share: the absolute part is zero.
    #[verifier::when_used_as_spec(spec_from_relative)]
    pub fn from_relative(rel: Relative) -> (r: Linear)
        ensures
            r == Linear::spec_from_relative(rel),
    {
        Linear { rel, abs: Length::zero() }
    }
}

/// One of the two axes of the page.
#[derive(Clone, Copy, Debug, PartialEq, Eq, Structural)]
pub enum SpecAxis {
    Horizontal,
    Vertical,
}

/// One of the two axes of the text flow.
#[derive(Clone, Copy, Debug, PartialEq, Eq, Structural)]
pub enum GenAxis {
    Inline,
    Block,
}

/// A direction in which content is laid out.
#[derive(Clone, Copy, Debug, PartialEq, Eq, Structural)]
pub enum Dir {
    LTR,
    RTL,
    TTB,
    BTT,
}

/// Where to align something along an axis.
#[derive(Clone, Copy, Debug, PartialEq, Eq, Structural)]
pub enum Align {
    Left,
    Top,
    Center,
    Right,
    Bottom,
}

impl Align {
    /// The axis an alignment belongs to; `Center` fits either and has none.
    pub open spec fn spec_axis(self) -> Option<SpecAxis> {
        match self {
            Align::Left => Some(SpecAxis::Horizontal),
            Align::Top => Some(SpecAxis::Vertical),
            Align::Center => None,
            Align::Right => Some(SpecAxis::Horizontal),
            Align::Bottom => Some(SpecAxis::Vertical),
        }
    }

    /// The axis an alignment belongs to; `Center` fits either and has none.
    #[verifier::when_used_as_spec(spec_axis)]
    pub fn axis(self) -> (r: Option<SpecAxis>)
        ensures
            r == self.spec_axis(),
    {
        match self {
            Align::Left => Some(SpecAxis::Horizontal),
            Align::Top => Some(SpecAxis::Vertical),
            Align::Center => None,
            Align::Right => Some(SpecAxis::Horizontal),
            Align::Bottom => Some(SpecAxis::Vertical),
        }
    }
}

/// A width and a height.
#[derive(Clone, Copy, Debug, PartialEq, Eq, Structural)]
pub struct Size {
    pub w: Length,
    pub h: Length,
}

impl Size {
    /// A size from its width and height.
    pub fn new(w: Length, h: Length) -> (r: Size)
        ensures
            r.w == w,
            r.h == h,
    {
        Size { w, h }
    }
}

/// A value for each of the two page axes.
#[derive(Clone, Debug, PartialEq, Eq)]
pub struct Spec<T> {
    pub x: T,
    pub y: T,
}

impl<T> Spec<T> {
    /// A pair from its horizontal and vertical component.
    pub fn new(x: T, y: T) -> (r: Spec<T>)
        ensures
            r.x == x,
            r.y == y,
    {
        Spec { x, y }
    }
}

/// A value for each of the four sides of a box.
#[derive(Clone, Copy, Debug, PartialEq, Eq)]
pub struct Sides<T> {
    pub left: T,
    pub top: T,
    pub right: T,
    pub bottom: T,
}

impl<T> Sides<T> {
    /// Four sides, each given.
    pub fn new(left: T, top: T, right: T, bottom: T) -> (r: Sides<T>)
        ensures
            r.left == left,
            r.top == top,
            r.right == right,
            r.bottom == bottom,
    {
        Sides { left, top, right, bottom }
    }
}

impl<T: Copy> Sides<T> {
    /// Four sides, all with the same value.
    pub open spec fn spec_splat(value: T) -> Sides<T> {
        Sides { left: value, top: value, right: value, bottom: value }
    }

    /// Four sides, all with the same value.
    #[verifier::when_used_as_spec(spec_splat)]
    pub fn splat(value: T) -> (r: Sides<T>)
        ensures
            r == Sides::<T>::spec_splat(value),
    {
        Sides { left: value, top: value, right: value, bottom: value }
    }
}

impl View for Length {
    type V = Length;

    open spec fn view(&self) -> Length {
        *self
    }
}

impl View for Linear {
    type V = Linear;

    open spec fn view(&self) -> Linear {
        *self
    }
}

impl View for Align {
    type V = Align;

    open spec fn view(&self) -> Align {
        *self
    }
}

impl View for Dir {
    type V = Dir;

    open spec fn view(&self) -> Dir {
        *self
    }
}

} // verus!
