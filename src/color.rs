use vstd::prelude::*;

verus! {

/// One LED's color, as the three bytes that the strip receives.
#[derive(Clone, Copy, Debug, PartialEq, Eq, Structural)]
pub struct Color {
    pub r: u8,
    pub g: u8,
    pub b: u8,
}

/// The color of an LED that is not lit.
pub open spec fn off_color() -> Color {
    Color { r: 0, g: 0, b: 0 }
}

/// The color of a lit LED: full red.
pub open spec fn lit_color() -> Color {
    Color { r: 255, g: 0, b: 0 }
}

impl Color {
    pub fn new(r: u8, g: u8, b: u8) -> (c: Color)
        ensures
            c.r == r,
            c.g == g,
            c.b == b,
    {
        Color { r, g, b }
    }

    pub fn off() -> (c: Color)
        ensures
            c == off_color(),
    {
        Color { r: 0, g: 0, b: 0 }
    }

    pub fn red() -> (c: Color)
        ensures
            c == lit_color(),
    {
        Color { r: 255, g: 0, b: 0 }
    }
}

} // verus!
