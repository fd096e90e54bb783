//! RGBA color values.

use vstd::prelude::*;

verus! {

/// An RGBA color with one byte per channel.
#[derive(Clone, Copy, Debug, PartialEq, Eq, Structural)]
pub struct Color {
    pub red: u8,
    pub green: u8,
    pub blue: u8,
    pub alpha: u8,
}

/// The packed ARGB word of a color, as the display protocol wants it:
/// alpha in the top byte, then red, green and blue.
pub open spec fn spec_argb(c: Color) -> u32 {
    (c.alpha * 0x100_0000 + c.red * 0x1_0000 + c.green * 0x100 + c.blue) as u32
}

impl Color {
    /// Create a new color from the red, green, blue and alpha channels,
    /// each in the range 0 to 255.
    pub fn new(red: u8, green: u8, blue: u8, alpha: u8) -> (r: Self)
        ensures
            r == (Color { red, green, blue, alpha }),
    {
        Color { red, green, blue, alpha }
    }

    /// Pack the color into one ARGB word.
    pub fn argb(&self) -> (r: u32)
        ensures
            r == spec_argb(*self),
    {
        (self.alpha as u32) * 0x100_0000 + (self.red as u32) * 0x1_0000
            + (self.green as u32) * 0x100 + (self.blue as u32)
    }
}

impl From<Color> for u32 {
    /// The packed ARGB word, as [`Color::argb`] computes it.
    fn from(color: Color) -> (r: u32)
        ensures
            r == spec_argb(color),
    {
        color.argb()
    }
}

impl vstd::std_specs::convert::FromSpecImpl<Color> for u32 {
    open spec fn obeys_from_spec() -> bool {
        true
    }

    open spec fn from_spec(color: Color) -> u32 {
        spec_argb(color)
    }
}

} // verus!
