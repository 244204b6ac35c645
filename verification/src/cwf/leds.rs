//! Segment patterns of the clock-with-Wi-Fi display: digits, the hexadecimal letters
//! and the dash.

use vstd::prelude::*;

verus! {

/// Segment bit masks and character patterns.
pub struct Leds;

impl Leds {
    /// Segment A (top).
    pub const SEG_A: u8 = 1u8 << 0u8;
    /// Segment B (top right).
    pub const SEG_B: u8 = 1u8 << 1u8;
    /// Segment C (bottom right).
    pub const SEG_C: u8 = 1u8 << 2u8;
    /// Segment D (bottom).
    pub const SEG_D: u8 = 1u8 << 3u8;
    /// Segment E (bottom left).
    pub const SEG_E: u8 = 1u8 << 4u8;
    /// Segment F (top left).
    pub const SEG_F: u8 = 1u8 << 5u8;
    /// Segment G (middle).
    pub const SEG_G: u8 = 1u8 << 6u8;
    /// The decimal point.
    pub const DECIMAL: u8 = 1u8 << 7u8;
    /// Segments of the digits 0 to 9.
    pub const DIGITS: [u8; 10] = [0x3F, 0x06, 0x5B, 0x4F, 0x66, 0x6D, 0x7D, 0x07, 0x7F, 0x6F];
    /// Segments of each ASCII character, in decimal, sixteen codes per row: the digits,
    /// `A`, `C`, `E`, `F` in either case, lower-case `b` and `d`, and `-`; all else blank.
    pub const ASCII_TABLE: [u8; 128] = [
        0, 0, 0, 0, 0, 0, 0, 0, 0, 0, 0, 0, 0, 0, 0, 0, // 0..=15
        0, 0, 0, 0, 0, 0, 0, 0, 0, 0, 0, 0, 0, 0, 0, 0, // 16..=31
        0, 0, 0, 0, 0, 0, 0, 0, 0, 0, 0, 0, 0, 64, 0, 0, // 32..=47
        63, 6, 91, 79, 102, 109, 125, 7, 127, 111, 0, 0, 0, 0, 0, 0, // 48..=63
        0, 119, 0, 57, 0, 121, 113, 0, 0, 0, 0, 0, 0, 0, 0, 0, // 64..=79
        0, 0, 0, 0, 0, 0, 0, 0, 0, 0, 0, 0, 0, 0, 0, 0, // 80..=95
        0, 119, 124, 57, 94, 121, 113, 0, 0, 0, 0, 0, 0, 0, 0, 0, // 96..=111
        0, 0, 0, 0, 0, 0, 0, 0, 0, 0, 0, 0, 0, 0, 0, 0, // 112..=127
    ];
}

} // verus!
