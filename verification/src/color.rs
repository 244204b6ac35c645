//! 8-bit RGB colors.

use vstd::prelude::*;

verus! {

/// An 8-bit-per-channel RGB color.
#[derive(Clone, Copy, Debug, PartialEq, Eq, Structural)]
pub struct RGB8 {
    pub r: u8,
    pub g: u8,
    pub b: u8,
}

impl RGB8 {
    /// A color from its three channels.
    pub fn new(r: u8, g: u8, b: u8) -> (color: Self)
        ensures
            color == (RGB8 { r, g, b }),
    {
        RGB8 { r, g, b }
    }
}

/// All channels off.
pub fn black() -> (color: RGB8)
    ensures
        color == (RGB8 { r: 0, g: 0, b: 0 }),
{
    RGB8 { r: 0, g: 0, b: 0 }
}

/// All channels at full brightness.
pub fn white() -> (color: RGB8)
    ensures
        color == (RGB8 { r: 255, g: 255, b: 255 }),
{
    RGB8 { r: 255, g: 255, b: 255 }
}

} // verus!
