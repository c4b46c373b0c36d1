//! RGBA colors used by the rendering engine.

use vstd::prelude::*;

verus! {

/// A 4-channel color, one byte per channel.
#[derive(Clone, Copy, Debug, PartialEq, Eq, Structural)]
pub struct Color {
    pub r: u8,
    pub g: u8,
    pub b: u8,
    pub a: u8,
}

impl Color {
    /// Fully opaque white.
    pub fn white() -> (c: Color)
        ensures
            c == (Color { r: 255u8, g: 255u8, b: 255u8, a: 255u8 }),
    {
        Color { r: 255, g: 255, b: 255, a: 255 }
    }

    /// Fully opaque black.
    pub fn black() -> (c: Color)
        ensures
            c == (Color { r: 0u8, g: 0u8, b: 0u8, a: 255u8 }),
    {
        Color { r: 0, g: 0, b: 0, a: 255 }
    }

    /// The opaque white constant, for use in specifications.
    pub open spec fn spec_white() -> Color {
        Color { r: 255u8, g: 255u8, b: 255u8, a: 255u8 }
    }

    /// The opaque black constant, for use in specifications.
    pub open spec fn spec_black() -> Color {
        Color { r: 0u8, g: 0u8, b: 0u8, a: 255u8 }
    }
}

} // verus!
