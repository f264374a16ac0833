//! The glyph source: fixed 8x12 monochrome bitmaps for the characters the
//! dashboard prints, and their rasterization into a glyph-sized pixel
//! rectangle.
//!
//! A bitmap is packed into the low 96 bits of a `u128`: the pixel at
//! `(row, col)` is bit `(11 - row) * 8 + (7 - col)`, so a bitmap written in
//! hexadecimal reads top row first, leftmost pixel in the high bit of each
//! byte. Only the bytes a formatted metric can contain have a glyph; every
//! other byte is absent, and the layout engine skips it silently.

use vstd::prelude::*;

use crate::color::Rgb;

verus! {

/// Width of one glyph cell in pixels.
pub const GLYPH_WIDTH: u16 = 8;

/// Height of one glyph cell in pixels.
pub const GLYPH_HEIGHT: u16 = 12;

pub const GLYPH_0: u128 = 0x00_3C_66_66_6E_76_66_66_66_3C_00_00;

pub const GLYPH_1: u128 = 0x00_18_38_78_18_18_18_18_18_7E_00_00;

pub const GLYPH_2: u128 = 0x00_3C_66_06_06_0C_18_30_60_7E_00_00;

pub const GLYPH_3: u128 = 0x00_3C_66_06_06_1C_06_06_66_3C_00_00;

pub const GLYPH_4: u128 = 0x00_0C_1C_3C_6C_CC_FE_0C_0C_1E_00_00;

pub const GLYPH_5: u128 = 0x00_7E_60_60_7C_06_06_06_66_3C_00_00;

pub const GLYPH_6: u128 = 0x00_3C_66_60_60_7C_66_66_66_3C_00_00;

pub const GLYPH_7: u128 = 0x00_7E_66_06_0C_0C_18_18_18_18_00_00;

pub const GLYPH_8: u128 = 0x00_3C_66_66_66_3C_66_66_66_3C_00_00;

pub const GLYPH_9: u128 = 0x00_3C_66_66_66_3E_06_06_66_3C_00_00;

pub const GLYPH_DOT: u128 = 0x00_00_00_00_00_00_00_00_18_18_00_00;

pub const GLYPH_MINUS: u128 = 0x00_00_00_00_00_7E_00_00_00_00_00_00;

pub const GLYPH_V: u128 = 0x00_66_66_66_66_66_66_66_3C_18_00_00;

pub const GLYPH_A: u128 = 0x00_18_3C_66_66_66_7E_66_66_66_00_00;

pub const GLYPH_W: u128 = 0x00_C6_C6_C6_C6_D6_D6_FE_EE_C6_00_00;

/// The bitmap a byte renders with, or `None` for unsupported bytes.
pub open spec fn glyph_of(b: u8) -> Option<u128> {
    match b {
        48u8 => Some(GLYPH_0),
        49u8 => Some(GLYPH_1),
        50u8 => Some(GLYPH_2),
        51u8 => Some(GLYPH_3),
        52u8 => Some(GLYPH_4),
        53u8 => Some(GLYPH_5),
        54u8 => Some(GLYPH_6),
        55u8 => Some(GLYPH_7),
        56u8 => Some(GLYPH_8),
        57u8 => Some(GLYPH_9),
        46u8 => Some(GLYPH_DOT),
        45u8 => Some(GLYPH_MINUS),
        86u8 => Some(GLYPH_V),
        65u8 => Some(GLYPH_A),
        87u8 => Some(GLYPH_W),
        _ => None,
    }
}

/// Looks a byte's glyph bitmap up in the font table.
pub fn glyph_for(b: u8) -> (g: Option<u128>)
    ensures
        g == glyph_of(b),
{
    match b {
        48u8 => Some(GLYPH_0),
        49u8 => Some(GLYPH_1),
        50u8 => Some(GLYPH_2),
        51u8 => Some(GLYPH_3),
        52u8 => Some(GLYPH_4),
        53u8 => Some(GLYPH_5),
        54u8 => Some(GLYPH_6),
        55u8 => Some(GLYPH_7),
        56u8 => Some(GLYPH_8),
        57u8 => Some(GLYPH_9),
        46u8 => Some(GLYPH_DOT),
        45u8 => Some(GLYPH_MINUS),
        86u8 => Some(GLYPH_V),
        65u8 => Some(GLYPH_A),
        87u8 => Some(GLYPH_W),
        _ => None,
    }
}

/// Whether the pixel at `(row, col)` of a bitmap is foreground.
pub open spec fn glyph_pixel(bits: u128, row: int, col: int) -> bool
    recommends
        0 <= row < 12,
        0 <= col < 8,
{
    ((bits >> (((11 - row) * 8 + (7 - col)) as u128)) & 1) == 1
}

/// The 96 pixels of one glyph cell, row-major from the top-left: foreground
/// color where the bitmap has a bit set, background color elsewhere.
pub open spec fn rasterized(bits: u128, fg: Rgb, bg: Rgb) -> Seq<Rgb> {
    Seq::new(96, |i: int| if glyph_pixel(bits, i / 8, i % 8) {
        fg
    } else {
        bg
    })
}

/// Fills one glyph cell's pixels from a bitmap and a color pair.
pub fn rasterize(bits: u128, fg: Rgb, bg: Rgb) -> (pix: Vec<Rgb>)
    ensures
        pix@ == rasterized(bits, fg, bg),
{
    let mut pix: Vec<Rgb> = Vec::new();
    let mut i: usize = 0;
    while i < 96
        invariant
            i <= 96,
            pix@ =~= rasterized(bits, fg, bg).take(i as int),
        decreases 96 - i,
    {
        let row = i / 8;
        let col = i % 8;
        let shift: u128 = ((11 - row) * 8 + (7 - col)) as u128;
        let is_fg = ((bits >> shift) & 1) == 1;
        pix.push(if is_fg {
            fg
        } else {
            bg
        });
        proof {
            assert(pix@ =~= rasterized(bits, fg, bg).take(i + 1));
        }
        i = i + 1;
    }
    proof {
        assert(pix@ =~= rasterized(bits, fg, bg));
    }
    pix
}

} // verus!
