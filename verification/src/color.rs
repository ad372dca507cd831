//! Colors and what shapes are filled with.

use vstd::prelude::*;

verus! {

/// A color with eight bits for each of red, green, blue and alpha.
#[derive(Clone, Copy, Debug, PartialEq, Eq, Structural)]
pub struct RgbaColor {
    pub r: u8,
    pub g: u8,
    pub b: u8,
    pub a: u8,
}

impl RgbaColor {
    /// A color from its four channels.
    pub fn new(r: u8, g: u8, b: u8, a: u8) -> (c: RgbaColor)
        ensures
            c == (RgbaColor { r, g, b, a }),
    {
        RgbaColor { r, g, b, a }
    }
}

/// A color in some color space.
#[derive(Clone, Copy, Debug, PartialEq, Eq, Structural)]
pub enum Color {
    Rgba(RgbaColor),
}

/// How a shape is filled.
#[derive(Clone, Copy, Debug, PartialEq, Eq, Structural)]
pub enum Paint {
    Color(Color),
}

impl View for Color {
    type V = Color;

    open spec fn view(&self) -> Color {
        *self
    }
}

} // verus!
