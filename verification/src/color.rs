//! Display colors: red, green and blue channels at 5-6-5 bit depth.

use vstd::prelude::*;

verus! {

/// One display color. The channels use the display's native 5-6-5 bit
/// depth: `r` and `b` range over 0..32, `g` over 0..64.
#[derive(Clone, Copy, Debug, PartialEq, Eq, Structural)]
pub struct Rgb {
    pub r: u8,
    pub g: u8,
    pub b: u8,
}

/// The color every frame paints glyph backgrounds with, and the full
/// clear fills the surface with.
pub open spec fn black() -> Rgb {
    Rgb { r: 0, g: 0, b: 0 }
}

/// Accent color of the voltage row of an active channel.
pub open spec fn voltage_accent() -> Rgb {
    Rgb { r: 31, g: 63, b: 0 }
}

/// Accent color of the current row of an active channel.
pub open spec fn current_accent() -> Rgb {
    Rgb { r: 31, g: 0, b: 0 }
}

/// Accent color of the power row of an active channel.
pub open spec fn power_accent() -> Rgb {
    Rgb { r: 0, g: 63, b: 0 }
}

/// The neutral gray that an idle channel's three rows all render in.
pub open spec fn idle_gray() -> Rgb {
    Rgb { r: 15, g: 30, b: 15 }
}

} // verus!
