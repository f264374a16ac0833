use power_dashboard::color::Rgb;
use power_dashboard::font::{glyph_for, rasterize, GLYPH_MINUS};
use power_dashboard::layout::{draw_text, layout_start_x, Blit};

fn fg() -> Rgb {
    Rgb { r: 31, g: 63, b: 0 }
}

fn bg() -> Rgb {
    Rgb { r: 0, g: 0, b: 0 }
}

fn blits_of(text: &[u8], right_edge: u16, top: u16) -> Vec<Blit> {
    let mut out: Vec<Blit> = Vec::new();
    draw_text(&text.to_vec(), right_edge, top, fg(), bg(), &mut out);
    out
}

#[test]
fn right_aligns_three_characters() {
    // Three glyph cells of width 8 against a right edge of 53.
    assert_eq!(layout_start_x(3, 53), 29);
    let blits = blits_of(b"1.5", 53, 0);
    assert_eq!(blits.len(), 3);
    assert_eq!(blits[0].x, 29);
    assert_eq!(blits[1].x, 37);
    assert_eq!(blits[2].x, 45);
}

#[test]
fn saturates_at_the_left_border() {
    // Ten glyphs are wider than a right edge of 53: the string starts at 0.
    assert_eq!(layout_start_x(10, 53), 0);
    let blits = blits_of(b"1234567890", 53, 0);
    assert_eq!(blits[0].x, 0);
    assert_eq!(blits[9].x, 72);
}

#[test]
fn blits_cover_one_glyph_cell_each() {
    let blits = blits_of(b"0.00", 53, 13);
    assert_eq!(blits.len(), 4);
    for b in &blits {
        assert_eq!(b.w, 8);
        assert_eq!(b.h, 12);
        assert_eq!(b.y, 13);
        assert_eq!(b.pixels.len(), 96);
    }
    assert_eq!(blits[0].x, 53 - 32);
}

#[test]
fn unsupported_byte_advances_without_drawing() {
    // 'X' has no glyph: the cursor still advances one cell past it.
    let blits = blits_of(b"X1", 16, 0);
    assert_eq!(blits.len(), 1);
    assert_eq!(blits[0].x, 8);
}

#[test]
fn font_covers_exactly_the_formatter_alphabet() {
    for b in [
        b'0', b'1', b'2', b'3', b'4', b'5', b'6', b'7', b'8', b'9', b'.', b'-', b'V', b'A', b'W',
    ] {
        assert!(glyph_for(b).is_some(), "missing glyph for {}", b as char);
    }
    for b in [b' ', b'X', b'a', b'v', b'w', b'+', 0u8, 255u8] {
        assert!(glyph_for(b).is_none(), "unexpected glyph for {}", b);
    }
}

#[test]
fn rasterizes_foreground_where_bits_are_set() {
    // The minus glyph is a single bar: row 5 has bits 0x7E, all other rows
    // are empty.
    let pix = rasterize(GLYPH_MINUS, fg(), bg());
    assert_eq!(pix.len(), 96);
    for row in 0..12 {
        for col in 0..8 {
            let expect_fg = row == 5 && (1..=6).contains(&col);
            let got = pix[row * 8 + col];
            assert_eq!(got == fg(), expect_fg, "pixel ({row},{col})");
            if !expect_fg {
                assert_eq!(got, bg());
            }
        }
    }
}

#[test]
fn rasterized_glyph_matches_its_blit() {
    let blits = blits_of(b"-", 8, 0);
    assert_eq!(blits.len(), 1);
    assert_eq!(blits[0].pixels, rasterize(GLYPH_MINUS, fg(), bg()));
}
