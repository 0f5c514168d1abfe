//! Pixel colors of the interactive view.

use vstd::prelude::*;

verus! {

/// An 8-bit color with alpha.
#[derive(Clone, Copy, Debug, PartialEq, Eq, Structural)]
pub struct ColorRgba {
    pub r: u8,
    pub g: u8,
    pub b: u8,
    pub a: u8,
}

/// A color in shadow keeps half of each of its channels, rounded down, and
/// its alpha; out of shadow it is unchanged.
pub fn apply_shadow(base_color: ColorRgba, in_shadow: bool) -> (r: ColorRgba)
    ensures
        in_shadow ==> r == (ColorRgba {
            r: (base_color.r / 2) as u8,
            g: (base_color.g / 2) as u8,
            b: (base_color.b / 2) as u8,
            a: base_color.a,
        }),
        !in_shadow ==> r == base_color,
{
    if in_shadow {
        ColorRgba { r: base_color.r / 2, g: base_color.g / 2, b: base_color.b / 2, a: base_color.a }
    } else {
        base_color
    }
}

} // verus!
