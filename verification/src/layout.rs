//! Right-aligned glyph layout.
//!
//! A string is anchored by the pixel column of its right edge: its first
//! glyph starts at `right_edge_x - 8 * len`, clamped to the left border when
//! the string is wider than the anchor allows (the glyphs then overlap the
//! column to the left rather than failing). Each supported byte becomes one
//! glyph-cell write; an unsupported byte advances the cursor and draws
//! nothing.

use vstd::prelude::*;

use crate::color::Rgb;
use crate::font::{glyph_for, glyph_of, rasterize, rasterized, GLYPH_HEIGHT, GLYPH_WIDTH};

verus! {

/// One rectangular pixel write: `pixels` is `w * h` colors, row-major,
/// to be placed with its top-left corner at `(x, y)`.
pub struct Blit {
    pub x: u16,
    pub y: u16,
    pub w: u16,
    pub h: u16,
    pub pixels: Vec<Rgb>,
}

/// The mathematical content of a `Blit`.
#[verifier::ext_equal]
pub struct BlitView {
    pub x: int,
    pub y: int,
    pub w: int,
    pub h: int,
    pub pixels: Seq<Rgb>,
}

impl View for Blit {
    type V = BlitView;

    open spec fn view(&self) -> BlitView {
        BlitView {
            x: self.x as int,
            y: self.y as int,
            w: self.w as int,
            h: self.h as int,
            pixels: self.pixels@,
        }
    }
}

/// Where a right-aligned string of `len` glyphs starts: `right_edge - 8 * len`,
/// saturated at the left border.
pub open spec fn start_x_of(len: nat, right_edge: int) -> int {
    if 8 * len > right_edge {
        0
    } else {
        right_edge - 8 * len
    }
}

/// Right-alignment saturates: the computed origin is never negative, and a
/// string wider than its right edge starts exactly at the left border.
pub proof fn lemma_layout_saturates(len: nat, right_edge: int)
    requires
        0 <= right_edge,
    ensures
        start_x_of(len, right_edge) >= 0,
        8 * len > right_edge ==> start_x_of(len, right_edge) == 0,
        start_x_of(len, right_edge) + 8 * len >= right_edge,
{
}

/// Computes the starting pixel column of a right-aligned string.
pub fn layout_start_x(len: usize, right_edge: u16) -> (x: u16)
    requires
        8 * len <= usize::MAX,
    ensures
        x as int == start_x_of(len as nat, right_edge as int),
{
    let width = 8 * len;
    if width > right_edge as usize {
        0
    } else {
        (right_edge as usize - width) as u16
    }
}

/// The glyph-cell writes of a string's first `text.len()` bytes, leftmost
/// glyph at pixel column `sx`: one blit per supported byte, none for an
/// unsupported one, the cursor advancing one cell either way.
pub open spec fn blits_upto(text: Seq<u8>, sx: int, top: int, fg: Rgb, bg: Rgb) -> Seq<BlitView>
    decreases text.len(),
{
    if text.len() == 0 {
        Seq::empty()
    } else {
        let prior = blits_upto(text.drop_last(), sx, top, fg, bg);
        let gx = sx + 8 * (text.len() - 1);
        match glyph_of(text.last()) {
            Some(bits) => prior.push(
                BlitView {
                    x: gx,
                    y: top,
                    w: 8,
                    h: 12,
                    pixels: rasterized(bits, fg, bg),
                },
            ),
            None => prior,
        }
    }
}

/// The glyph-cell writes of a whole right-aligned string.
pub open spec fn text_blits(text: Seq<u8>, right_edge: int, top: int, fg: Rgb, bg: Rgb) -> Seq<
    BlitView,
> {
    blits_upto(text, start_x_of(text.len(), right_edge), top, fg, bg)
}

/// Appends to `out` the glyph-cell writes that render `text` right-aligned
/// against `right_edge` with its top row at `top`.
pub fn draw_text(text: &Vec<u8>, right_edge: u16, top: u16, fg: Rgb, bg: Rgb, out: &mut Vec<Blit>)
    requires
        8 * text@.len() <= 65535,
    ensures
        final(out)@.map_values(|b: Blit| b@) == old(out)@.map_values(|b: Blit| b@) + text_blits(
            text@,
            right_edge as int,
            top as int,
            fg,
            bg,
        ),
{
    let ghost sx = start_x_of(text@.len(), right_edge as int);
    proof {
        lemma_layout_saturates(text@.len(), right_edge as int);
    }
    let start = layout_start_x(text.len(), right_edge);
    let mut cur: u16 = start;
    let mut k: usize = 0;
    while k < text.len()
        invariant
            k <= text@.len(),
            8 * text@.len() <= 65535,
            sx == start_x_of(text@.len(), right_edge as int),
            0 <= sx <= right_edge,
            sx + 8 * text@.len() <= 65535,
            cur as int == sx + 8 * k,
            out@.map_values(|b: Blit| b@) =~~= old(out)@.map_values(|b: Blit| b@) + blits_upto(
                text@.take(k as int),
                sx,
                top as int,
                fg,
                bg,
            ),
        decreases text@.len() - k,
    {
        let ghost prefix = text@.take(k as int);
        let ghost prefix1 = text@.take(k as int + 1);
        proof {
            assert(prefix1.drop_last() =~= prefix);
            assert(prefix1.last() == text@[k as int]);
        }
        let b = text[k];
        match glyph_for(b) {
            Some(bits) => {
                let pix = rasterize(bits, fg, bg);
                let blit = Blit { x: cur, y: top, w: GLYPH_WIDTH, h: GLYPH_HEIGHT, pixels: pix };
                let ghost bv = blit@;
                let ghost pre = out@;
                out.push(blit);
                proof {
                    let f = |b: Blit| b@;
                    assert(bv =~~= (BlitView {
                        x: cur as int,
                        y: top as int,
                        w: 8,
                        h: 12,
                        pixels: rasterized(bits, fg, bg),
                    }));
                    assert(out@.map_values(f) =~~= pre.map_values(f).push(bv));
                    assert(blits_upto(prefix1, sx, top as int, fg, bg) =~~= blits_upto(
                        prefix,
                        sx,
                        top as int,
                        fg,
                        bg,
                    ).push(bv));
                    assert(out@.map_values(f) =~~= old(out)@.map_values(f) + blits_upto(
                        prefix1,
                        sx,
                        top as int,
                        fg,
                        bg,
                    ));
                }
            },
            None => {
                proof {
                    assert(blits_upto(prefix1, sx, top as int, fg, bg) =~~= blits_upto(
                        prefix,
                        sx,
                        top as int,
                        fg,
                        bg,
                    ));
                }
            },
        }
        cur = cur + 8;
        k = k + 1;
    }
    proof {
        assert(text@.take(text@.len() as int) =~= text@);
    }
}

} // verus!
