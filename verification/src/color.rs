//! RGBA colors with 8-bit channels.

use vstd::prelude::*;

verus! {

/// An RGBA color. Channel values run from 0 (dark) to 255 (full).
#[derive(Clone, Copy, PartialEq, Eq, Structural, Debug)]
pub struct Color {
    pub r: u8,
    pub g: u8,
    pub b: u8,
    pub a: u8,
}

/// Fully opaque white.
pub open spec fn white_spec() -> Color {
    Color { r: 255, g: 255, b: 255, a: 255 }
}

/// Fully opaque black.
pub open spec fn black_spec() -> Color {
    Color { r: 0, g: 0, b: 0, a: 255 }
}

/// Fully opaque red (the debug overlay's color).
pub open spec fn red_spec() -> Color {
    Color { r: 255, g: 0, b: 0, a: 255 }
}

impl Color {
    pub fn new(r: u8, g: u8, b: u8, a: u8) -> (c: Color)
        ensures
            c == (Color { r, g, b, a }),
    {
        Color { r, g, b, a }
    }

    pub fn white() -> (c: Color)
        ensures
            c == white_spec(),
    {
        Color { r: 255, g: 255, b: 255, a: 255 }
    }

    pub fn black() -> (c: Color)
        ensures
            c == black_spec(),
    {
        Color { r: 0, g: 0, b: 0, a: 255 }
    }

    pub fn red() -> (c: Color)
        ensures
            c == red_spec(),
    {
        Color { r: 255, g: 0, b: 0, a: 255 }
    }
}

} // verus!
