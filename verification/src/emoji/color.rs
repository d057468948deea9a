use vstd::prelude::*;

verus! {

/// A colour as four 8-bit channels: alpha, red, green, blue.
#[derive(Clone, Copy, PartialEq, Eq, Structural, Debug)]
pub struct Color {
    pub a: u8,
    pub r: u8,
    pub g: u8,
    pub b: u8,
}

impl Color {
    pub fn from_argb(a: u8, r: u8, g: u8, b: u8) -> (color: Color)
        ensures
            color == (Color { a, r, g, b }),
    {
        Color { a, r, g, b }
    }

    /// Opaque black.
    pub fn black() -> (color: Color)
        ensures
            color == Self::spec_black(),
    {
        Color { a: 255, r: 0, g: 0, b: 0 }
    }

    /// Opaque white.
    pub fn white() -> (color: Color)
        ensures
            color == Self::spec_white(),
    {
        Color { a: 255, r: 255, g: 255, b: 255 }
    }

    /// Fully transparent black.
    pub fn transparent() -> (color: Color)
        ensures
            color == Self::spec_transparent(),
    {
        Color { a: 0, r: 0, g: 0, b: 0 }
    }

    pub open spec fn spec_black() -> Color {
        Color { a: 255, r: 0, g: 0, b: 0 }
    }

    pub open spec fn spec_white() -> Color {
        Color { a: 255, r: 255, g: 255, b: 255 }
    }

    pub open spec fn spec_transparent() -> Color {
        Color { a: 0, r: 0, g: 0, b: 0 }
    }
}

} // verus!
