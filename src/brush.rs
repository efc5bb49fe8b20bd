//! Paint sources: what a paint operation fills its region with.
use vstd::prelude::*;
use crate::color::{rgb565, rgb24_to_rgb565};

verus! {

/// An opaque 8-bit RGB color.
#[derive(Clone, Copy, Debug, PartialEq, Eq, Structural)]
pub struct Color {
    pub red: u8,
    pub green: u8,
    pub blue: u8,
}

/// A paint source. Only a solid color can be painted onto this display.
#[derive(Clone, Copy, Debug, PartialEq, Eq, Structural)]
pub enum Brush {
    SolidColor(Color),
    /// A gradient of any kind; its stops are of no concern to this surface.
    Gradient,
}

impl Brush {
    /// Whether this brush paints one solid color.
    pub open spec fn is_solid(&self) -> bool {
        self is SolidColor
    }

    /// The packed 5-6-5 value of a solid brush's color.
    pub open spec fn packed(&self) -> u16
        recommends
            self.is_solid(),
    {
        match self {
            Brush::SolidColor(c) => rgb565(c.red, c.green, c.blue),
            Brush::Gradient => 0,
        }
    }

    /// The packed 5-6-5 value of a solid brush's color.
    pub fn solid_rgb565(&self) -> (c: u16)
        requires
            self.is_solid(),
        ensures
            c == self.packed(),
    {
        match self {
            Brush::SolidColor(c) => rgb24_to_rgb565(c.red, c.green, c.blue),
            Brush::Gradient => vstd::pervasive::unreached(),
        }
    }
}

} // verus!
