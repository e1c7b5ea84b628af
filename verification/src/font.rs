//! The built-in hexadecimal font: sixteen glyphs of five rows each.

use vstd::prelude::*;

verus! {

/// Address at which the font table is placed in memory.
pub const FONT_START: u16 = 0x050;

/// Number of bytes that one glyph occupies.
pub const GLYPH_BYTES: u16 = 5;

/// Number of bytes in the whole font table.
pub const FONT_BYTES: usize = 80;

/// Glyph rows for the digits 0 to F. The high nibble of each byte holds the
/// four pixels of one row, leftmost pixel in the most significant bit.
pub const FONT_SET: [u8; 80] = [
    0xF0, 0x90, 0x90, 0x90, 0xF0,
    0x20, 0x60, 0x20, 0x20, 0x70,
    0xF0, 0x10, 0xF0, 0x80, 0xF0,
    0xF0, 0x10, 0xF0, 0x10, 0xF0,
    0x90, 0x90, 0xF0, 0x10, 0x10,
    0xF0, 0x80, 0xF0, 0x10, 0xF0,
    0xF0, 0x80, 0xF0, 0x90, 0xF0,
    0xF0, 0x10, 0x20, 0x40, 0x40,
    0xF0, 0x90, 0xF0, 0x90, 0xF0,
    0xF0, 0x90, 0xF0, 0x10, 0xF0,
    0xF0, 0x90, 0xF0, 0x90, 0x90,
    0xE0, 0x90, 0xE0, 0x90, 0xE0,
    0xF0, 0x80, 0x80, 0x80, 0xF0,
    0xE0, 0x90, 0x90, 0x90, 0xE0,
    0xF0, 0x80, 0xF0, 0x80, 0xF0,
    0xF0, 0x80, 0xF0, 0x80, 0x80,
];

/// Memory address of the first row of the glyph for `digit`.
pub open spec fn glyph_address(digit: int) -> int {
    FONT_START + GLYPH_BYTES * digit
}

} // verus!
