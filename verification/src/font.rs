//! The built-in hexadecimal glyphs.

use vstd::prelude::*;

verus! {

/// Address of the first glyph byte in memory.
pub const FONT_START: u16 = 0x50;

/// Bytes per glyph: five rows of four pixels, in the high nibble of each byte.
pub const GLYPH_BYTES: u16 = 5;

/// Number of bytes in the glyph table.
pub const FONT_BYTES: usize = 80;

/// The sixteen glyphs `0`..`F`, five bytes each.
pub const FONT: [u8; 80] = [
    0xF0, 0x90, 0x90, 0x90, 0xF0,
    0x20, 0x60, 0x20, 0x20, 0x70,
    0xF0, 0x10, 0xF0, 0x80, 0xF0,
    0xF0, 0x10, 0xF0, 0x10, 0xF0,
    0x90, 0x90, 0xF0, 0x10, 0x10,
    0xF0, 0x80, 0xF0, 0x10, 0xF0,
    0xF0, 0x80, 0xF0, 0x90, 0xF0,
    0xF0, 0x10, 0x20, 0x40, 0x40,
    0xF0, 0x90, 0xF0, 0x90, 0xF0,
    0xF0, 0x90, 0xF0, 0x10, 0xF0,
    0xF0, 0x90, 0xF0, 0x90, 0x90,
    0xE0, 0x90, 0xE0, 0x90, 0xE0,
    0xF0, 0x80, 0x80, 0x80, 0xF0,
    0xE0, 0x90, 0x90, 0x90, 0xE0,
    0xF0, 0x80, 0xF0, 0x80, 0xF0,
    0xF0, 0x80, 0xF0, 0x80, 0x80,
];

/// The byte that a fresh machine holds at address `a`: a glyph byte inside
/// the font table, zero elsewhere.
pub open spec fn initial_byte(a: int) -> u8 {
    if 0x50 <= a < 0x50 + 80 {
        FONT[a - 0x50]
    } else {
        0u8
    }
}

} // verus!
