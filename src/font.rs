//! All characters are stored in the lower 15 bits of u16 integers.
//!
//! After the most significant dummy bit, the bitmaps are laid
//! out as 5x3 grids, starting from the top left and running across
//! in rows until the least significant bit at the bottom right.
use vstd::prelude::*;

verus! {

/// Height of a single character in bits.
pub const H: u16 = 5;

/// Width of a single character in bits.
pub const W: u16 = 3;

// ...
// .x.
// ...
// .x.
// ...
/// Bitmap ':' character.
pub const COLON: u16 = 0b0000_0100_0001_0000;

/// Bitmap ' ' character.
pub const SPACE: u16 = 0b0000_0000_0000_0000;

// .x.
// x.x
// xxx
// x.x
// x.x
/// Bitmap 'A' character.
pub const A: u16 = 0b0010_1011_1110_1101;

// xxx
// x.x
// xxx
// x..
// x..
/// Bitmap 'P' character.
pub const P: u16 = 0b0111_1011_1110_0100;

// x.x
// xxx
// x.x
// x.x
// x.x
/// Bitmap 'M' character.
pub const M: u16 = 0b0101_1111_0110_1101;

/// A glyph keeps its most significant bit clear: only the 15 grid bits are used.
pub open spec fn is_glyph(g: u16) -> bool {
    g < 0x8000
}

/// Bitmap of the decimal digit `d`, for `d` in `0..10`.
pub open spec fn digit_glyph(d: int) -> u16 {
    if d == 0 {
        0b0111_1011_0110_1111
    } else if d == 1 {
        0b0010_1100_1001_0111
    } else if d == 2 {
        0b0111_0011_1110_0111
    } else if d == 3 {
        0b0111_0011_1100_1111
    } else if d == 4 {
        0b0101_1011_1100_1001
    } else if d == 5 {
        0b0111_1001_1100_1111
    } else if d == 6 {
        0b0111_1001_1110_1111
    } else if d == 7 {
        0b0111_0010_0100_1001
    } else if d == 8 {
        0b0111_1011_1110_1111
    } else {
        0b0111_1011_1100_1111
    }
}

/// Whether the grid cell `i` (row-major from the top left, `0..15`) of `g` is painted.
pub open spec fn lit(g: u16, i: u16) -> bool {
    g & (0x4000u16 >> i) != 0
}

/// Looks up the bitmap of a decimal digit.
pub fn digit(d: u32) -> (g: u16)
    requires
        d < 10,
    ensures
        g == digit_glyph(d as int),
        is_glyph(g),
{
    match d {
        // xxx
        // x.x
        // x.x
        // x.x
        // xxx
        0 => 0b0111_1011_0110_1111,
        // .x.
        // xx.
        // .x.
        // .x.
        // xxx
        1 => 0b0010_1100_1001_0111,
        // xxx
        // ..x
        // xxx
        // x..
        // xxx
        2 => 0b0111_0011_1110_0111,
        // xxx
        // ..x
        // xxx
        // ..x
        // xxx
        3 => 0b0111_0011_1100_1111,
        // x.x
        // x.x
        // xxx
        // ..x
        // ..x
        4 => 0b0101_1011_1100_1001,
        // xxx
        // x..
        // xxx
        // ..x
        // xxx
        5 => 0b0111_1001_1100_1111,
        // xxx
        // x..
        // xxx
        // x.x
        // xxx
        6 => 0b0111_1001_1110_1111,
        // xxx
        // ..x
        // ..x
        // ..x
        // ..x
        7 => 0b0111_0010_0100_1001,
        // xxx
        // x.x
        // xxx
        // x.x
        // xxx
        8 => 0b0111_1011_1110_1111,
        // xxx
        // x.x
        // xxx
        // ..x
        // xxx
        _ => 0b0111_1011_1100_1111,
    }
}

} // verus!
