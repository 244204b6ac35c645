//! WS2812-style LED strips: frames of colors, the current budget, and the correction
//! table applied to every channel before a frame is sent.

use vstd::prelude::*;

use crate::color::{black, RGB8};

verus! {

/// A current budget for a strip.
#[derive(Clone, Copy, Debug, PartialEq, Eq, Structural)]
pub enum Current {
    Milliamps(u16),
    Unlimited,
}

/// Brightness allowed by a budget of `ma` milliamps when full brightness draws
/// `worst_case_ma`: proportional, capped at 255.
pub open spec fn budget_brightness(ma: int, worst_case_ma: int) -> int {
    let scale = (ma * 255) / worst_case_ma;
    if scale > 255 {
        255
    } else {
        scale
    }
}

impl Current {
    /// The largest brightness (0 to 255) the budget allows when the strip at full
    /// brightness draws `worst_case_ma` milliamps; 255 when unlimited.
    pub fn max_brightness(self, worst_case_ma: u32) -> (brightness: u8)
        requires
            worst_case_ma > 0,
        ensures
            brightness == match self {
                Current::Milliamps(ma) => budget_brightness(ma as int, worst_case_ma as int),
                Current::Unlimited => 255,
            },
    {
        match self {
            Current::Milliamps(ma) => {
                let scale = (ma as u32 * 255) / worst_case_ma;
                if scale > 255 {
                    255
                } else {
                    scale as u8
                }
            },
            Current::Unlimited => 255,
        }
    }
}

/// The colors of a strip's `N` LEDs, in strip order.
#[derive(Clone, Copy, Debug)]
pub struct Frame<const N: usize>(pub [RGB8; N]);

impl<const N: usize> Frame<N> {
    /// All LEDs off.
    pub fn new() -> (frame: Self)
        ensures
            forall|i: int| 0 <= i < N ==> #[trigger] frame.0@[i] == black_spec(),
    {
        Self::filled(black())
    }

    /// Every LED the same color.
    pub fn filled(color: RGB8) -> (frame: Self)
        ensures
            forall|i: int| 0 <= i < N ==> #[trigger] frame.0@[i] == color,
    {
        Frame([color; N])
    }

    /// The number of LEDs.
    pub fn len() -> (n: usize)
        ensures
            n == N,
    {
        N
    }
}

/// All channels off.
pub open spec fn black_spec() -> RGB8 {
    RGB8 { r: 0, g: 0, b: 0 }
}

/// A color with each channel looked up in `table`.
pub open spec fn corrected(color: RGB8, table: Seq<u8>) -> RGB8 {
    RGB8 { r: table[color.r as int], g: table[color.g as int], b: table[color.b as int] }
}

/// Replaces each channel of each LED by its entry in `combo_table` (gamma correction and
/// brightness scaling combined).
pub fn apply_correction<const N: usize>(frame: &mut Frame<N>, combo_table: &[u8; 256])
    ensures
        forall|i: int| 0 <= i < N ==> #[trigger] final(frame).0@[i] == corrected(
            old(frame).0@[i],
            combo_table@,
        ),
{
    let mut index: usize = 0;
    while index < N
        invariant
            index <= N,
            frame.0@.len() == N,
            forall|i: int| 0 <= i < index ==> #[trigger] frame.0@[i] == corrected(old(frame).0@[i], combo_table@),
            forall|i: int| index <= i < N ==> #[trigger] frame.0@[i] == old(frame).0@[i],
        decreases N - index,
    {
        let color = frame.0[index];
        frame.0[index] = RGB8 {
            r: combo_table[color.r as usize],
            g: combo_table[color.g as usize],
            b: combo_table[color.b as usize],
        };
        index += 1;
    }
}

/// The 32-bit word shifted out to a WS2812 for `color`: green, red, blue from the top
/// byte down, low byte zero.
pub open spec fn grb_word_spec(color: RGB8) -> u32 {
    ((color.g as u32) << 24u32) | ((color.r as u32) << 16u32) | ((color.b as u32) << 8u32)
}

/// The word sent for one LED, in the strip's green-red-blue order.
pub fn grb_word(color: RGB8) -> (word: u32)
    ensures
        word == grb_word_spec(color),
        word >> 24u32 == color.g,
        (word >> 16u32) & 0xff == color.r,
        (word >> 8u32) & 0xff == color.b,
        word & 0xff == 0,
{
    let g = color.g as u32;
    let r = color.r as u32;
    let b = color.b as u32;
    let word = (g << 24u32) | (r << 16u32) | (b << 8u32);
    assert(word >> 24u32 == g && (word >> 16u32) & 0xff == r && (word >> 8u32) & 0xff == b && word & 0xff
        == 0) by (bit_vector)
        requires
            g < 256,
            r < 256,
            b < 256,
            word == (g << 24u32) | (r << 16u32) | (b << 8u32),
    ;
    word
}

/// The words sent for a whole frame, in strip order.
pub fn frame_words<const N: usize>(colors: &[RGB8; N]) -> (words: [u32; N])
    ensures
        forall|i: int| 0 <= i < N ==> #[trigger] words@[i] == grb_word_spec(colors@[i]),
{
    let mut words = [0u32; N];
    let mut index: usize = 0;
    while index < N
        invariant
            index <= N,
            words@.len() == N,
            forall|i: int| 0 <= i < index ==> #[trigger] words@[i] == grb_word_spec(colors@[i]),
        decreases N - index,
    {
        words[index] = grb_word(colors[index]);
        index += 1;
    }
    words
}

} // verus!
