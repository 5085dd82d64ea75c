//! A 5-by-7 monospace glyph set covering every character the render pipeline
//! emits: digits, the capital letters of the field labels, and punctuation.
//! Each glyph is packed into a `u64`, seven bits per column, least
//! significant bit at the top of the leftmost column. Characters outside the
//! set render as blanks.

use vstd::prelude::*;

verus! {

/// The packed bitmap of the glyph for byte `c`: bit `dx * 7 + dy` is the
/// pixel at column `dx`, row `dy`.
pub open spec fn spec_glyph_bits(c: u8) -> u64 {
    match c {
        32 => 0x0,  // ' '
        40 => 0x8288e00,  // '('
        41 => 0x388a080,  // ')'
        44 => 0xc2800,  // ','
        45 => 0x81020408,  // '-'
        46 => 0x183000,  // '.'
        48 => 0x3e8b268be,  // '0'
        49 => 0x81fe100,  // '1'
        50 => 0x4693470c2,  // '2'
        51 => 0x3197160a1,  // '3'
        52 => 0x10fe48a18,  // '4'
        53 => 0x398b162a7,  // '5'
        54 => 0x30932653c,  // '6'
        55 => 0x30a27881,  // '7'
        56 => 0x3693264b6,  // '8'
        57 => 0x1e5326486,  // '9'
        65 => 0x7e22448fe,  // 'A'
        66 => 0x3693264ff,  // 'B'
        68 => 0x1c45060ff,  // 'D'
        69 => 0x4193264ff,  // 'E'
        71 => 0x7a93260be,  // 'G'
        72 => 0x7f102047f,  // 'H'
        73 => 0x83fe080,  // 'I'
        77 => 0x7f043017f,  // 'M'
        79 => 0x3e83060be,  // 'O'
        80 => 0x612244ff,  // 'P'
        82 => 0x4652644ff,  // 'R'
        83 => 0x3193264c6,  // 'S'
        84 => 0x103fc081,  // 'T'
        85 => 0x3f810203f,  // 'U'
        89 => 0x711c0407,  // 'Y'
        _ => 0,
    }
}

/// The packed bitmap of the glyph for byte `c`.
pub fn glyph_bits(c: u8) -> (r: u64)
    ensures
        r == spec_glyph_bits(c),
{
    match c {
        32 => 0x0,  // ' '
        40 => 0x8288e00,  // '('
        41 => 0x388a080,  // ')'
        44 => 0xc2800,  // ','
        45 => 0x81020408,  // '-'
        46 => 0x183000,  // '.'
        48 => 0x3e8b268be,  // '0'
        49 => 0x81fe100,  // '1'
        50 => 0x4693470c2,  // '2'
        51 => 0x3197160a1,  // '3'
        52 => 0x10fe48a18,  // '4'
        53 => 0x398b162a7,  // '5'
        54 => 0x30932653c,  // '6'
        55 => 0x30a27881,  // '7'
        56 => 0x3693264b6,  // '8'
        57 => 0x1e5326486,  // '9'
        65 => 0x7e22448fe,  // 'A'
        66 => 0x3693264ff,  // 'B'
        68 => 0x1c45060ff,  // 'D'
        69 => 0x4193264ff,  // 'E'
        71 => 0x7a93260be,  // 'G'
        72 => 0x7f102047f,  // 'H'
        73 => 0x83fe080,  // 'I'
        77 => 0x7f043017f,  // 'M'
        79 => 0x3e83060be,  // 'O'
        80 => 0x612244ff,  // 'P'
        82 => 0x4652644ff,  // 'R'
        83 => 0x3193264c6,  // 'S'
        84 => 0x103fc081,  // 'T'
        85 => 0x3f810203f,  // 'U'
        89 => 0x711c0407,  // 'Y'
        _ => 0,
    }
}

/// Whether the glyph for byte `c` has its pixel lit at column `dx`, row `dy`
/// of the cell. Columns five and up and rows seven and up are spacing and
/// never lit.
pub open spec fn glyph_on(c: u8, dx: int, dy: int) -> bool {
    0 <= dx < 5 && 0 <= dy < 7 && (spec_glyph_bits(c) >> ((dx * 7 + dy) as u64)) & 1 == 1
}

/// Whether the glyph for byte `c` is lit at column `dx`, row `dy`.
pub fn glyph_lit(c: u8, dx: usize, dy: usize) -> (r: bool)
    requires
        dx < 5,
        dy < 7,
    ensures
        r == glyph_on(c, dx as int, dy as int),
{
    let bits = glyph_bits(c);
    let sh: u64 = (dx * 7 + dy) as u64;
    (bits >> sh) & 1 == 1
}

} // verus!
