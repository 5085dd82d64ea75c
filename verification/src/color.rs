//! The output pixel format: 16-bit RGB with 5/6/5 bits per channel, and the
//! direct mapping from raw light-sensor channel values into that format.

use vstd::prelude::*;

verus! {

/// The background colour of the display: black.
pub const BLACK: u16 = 0;

/// The text colour of the display: white.
pub const WHITE: u16 = 0xffff;

/// What a 16-bit pixel holds for the channel triple `(r, g, b)`: each channel
/// is first narrowed to its low byte, then masked to the pixel format's bit
/// width (5 bits red, 6 bits green, 5 bits blue) and packed high-to-low.
pub open spec fn spec_rgb565(r: u16, g: u16, b: u16) -> u16 {
    (((r as u8) as u16 & 0x1f) << 11 | ((g as u8) as u16 & 0x3f) << 5
        | ((b as u8) as u16 & 0x1f)) as u16
}

/// Pack raw sensor channel values into a 16-bit 5/6/5 pixel.
pub fn rgb565_pack(r: u16, g: u16, b: u16) -> (c: u16)
    ensures
        c == spec_rgb565(r, g, b),
{
    ((r as u8) as u16 & 0x1f) << 11 | ((g as u8) as u16 & 0x3f) << 5 | ((b as u8) as u16 & 0x1f)
}

} // verus!
