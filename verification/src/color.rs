//! Colors with eight bits for each of red, green, blue and alpha.

use vstd::prelude::*;

verus! {

/// A color: red, green, blue and alpha, each from 0 to 255.
#[derive(Clone, Copy, Debug, PartialEq, Eq, Structural)]
pub struct Color {
    pub r: u8,
    pub g: u8,
    pub b: u8,
    pub a: u8,
}

impl Color {
    /// Whether the color hides all that lies under it.
    pub open spec fn opaque(self) -> bool {
        self.a == 255
    }

    /// The color with the four given channels.
    pub fn new(r: u8, g: u8, b: u8, a: u8) -> (c: Color)
        ensures
            c == (Color { r, g, b, a }),
    {
        Color { r, g, b, a }
    }

    /// Opaque black, the fill style of a fresh canvas.
    pub fn black() -> (c: Color)
        ensures
            c == (Color { r: 0, g: 0, b: 0, a: 255 }),
    {
        Color { r: 0, g: 0, b: 0, a: 255 }
    }

    /// Decides `opaque`.
    pub fn is_opaque(&self) -> (yes: bool)
        ensures
            yes == self.opaque(),
    {
        self.a == 255
    }
}

/// Calls `pathfinder_color::rgbu` and copies the four channels of the
/// `ColorU` that it returns. Trusted: `rgbu` keeps the three channels it is
/// given and sets alpha to 255.
#[verifier::external_body]
fn rgbu_channels(r: u8, g: u8, b: u8) -> (c: Color)
    ensures
        c == (Color { r, g, b, a: 255 }),
{
    let color = pathfinder_color::rgbu(r, g, b);
    Color { r: color.r, g: color.g, b: color.b, a: color.a }
}

/// The opaque color with the given red, green and blue channels.
pub fn rgbu(r: u8, g: u8, b: u8) -> (c: Color)
    ensures
        c == (Color { r, g, b, a: 255 }),
        c.opaque(),
{
    rgbu_channels(r, g, b)
}

} // verus!
