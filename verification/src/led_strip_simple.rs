//! A single LED strip without animation: the brightness its current budget allows, the
//! color wheel, and scaling a frame's brightness.

use vstd::prelude::*;

use crate::color::RGB8;

verus! {

/// Worst-case current of one LED at full white, in milliamps.
pub const MILLIAMPS_PER_LED: u32 = 60;

/// The strip's color type.
pub type Rgb = RGB8;

/// Brightness (0 to 255) that keeps a strip of `len` LEDs within `max_current_ma`
/// milliamps, each LED drawing at most 60 mA at full brightness.
pub fn max_brightness(len: usize, max_current_ma: u32) -> (brightness: u8)
    requires
        0 < len,
        len * 60 <= u32::MAX,
        max_current_ma * 255 <= u32::MAX,
    ensures
        brightness == crate::led_strip::budget_brightness(max_current_ma as int, len * 60),
{
    let worst_case_ma = (len as u32) * MILLIAMPS_PER_LED;
    let scaled = (max_current_ma * 255) / worst_case_ma;
    if scaled > 255 {
        255
    } else {
        scaled as u8
    }
}

/// The color wheel: position 0 is pure red, one third of the way pure green, two thirds
/// pure blue, blending linearly in between.
pub open spec fn wheel_spec(pos: int) -> RGB8 {
    let p = 255 - pos;
    if p < 85 {
        RGB8 { r: (255 - p * 3) as u8, g: 0, b: (p * 3) as u8 }
    } else if p < 170 {
        let q = p - 85;
        RGB8 { r: 0, g: (q * 3) as u8, b: (255 - q * 3) as u8 }
    } else {
        let q = p - 170;
        RGB8 { r: (q * 3) as u8, g: (255 - q * 3) as u8, b: 0 }
    }
}

/// The color at position `pos` of the color wheel.
pub fn wheel(pos: u8) -> (color: Rgb)
    ensures
        color == wheel_spec(pos as int),
        color.r as int + color.g as int + color.b as int == 255,
{
    let pos = 255 - pos;
    if pos < 85 {
        rgb(255 - pos * 3, 0, pos * 3)
    } else if pos < 170 {
        let pos = pos - 85;
        rgb(0, pos * 3, 255 - pos * 3)
    } else {
        let pos = pos - 170;
        rgb(pos * 3, 255 - pos * 3, 0)
    }
}

/// A color from its channels.
pub fn rgb(r: u8, g: u8, b: u8) -> (color: Rgb)
    ensures
        color == (RGB8 { r, g, b }),
{
    RGB8 { r, g, b }
}

/// A channel scaled by `brightness / 255`, rounded down.
pub fn scale_brightness(value: u8, brightness: u8) -> (scaled: u8)
    ensures
        scaled == (value as int * brightness as int) / 255,
        scaled <= value,
{
    assert((value as int * brightness as int) / 255 <= value) by (nonlinear_arith)
        requires
            value <= 255,
            brightness <= 255,
    ;
    ((value as u16 * brightness as u16) / 255) as u8
}

/// A color with every channel scaled by `brightness / 255`.
pub open spec fn dimmed(color: RGB8, brightness: int) -> RGB8 {
    RGB8 {
        r: ((color.r as int * brightness) / 255) as u8,
        g: ((color.g as int * brightness) / 255) as u8,
        b: ((color.b as int * brightness) / 255) as u8,
    }
}

/// Scales every LED of `frame` to `max_brightness / 255` of its color.
pub fn apply_max_brightness<const N: usize>(frame: &mut [Rgb; N], max_brightness: u8)
    ensures
        forall|i: int| 0 <= i < N ==> #[trigger] final(frame)@[i] == dimmed(old(frame)@[i], max_brightness as int),
{
    let mut index: usize = 0;
    while index < N
        invariant
            index <= N,
            frame@.len() == N,
            forall|i: int| 0 <= i < index ==> #[trigger] frame@[i] == dimmed(old(frame)@[i], max_brightness as int),
            forall|i: int| index <= i < N ==> #[trigger] frame@[i] == old(frame)@[i],
        decreases N - index,
    {
        let color = frame[index];
        frame[index] = RGB8::new(
            scale_brightness(color.r, max_brightness),
            scale_brightness(color.g, max_brightness),
            scale_brightness(color.b, max_brightness),
        );
        index += 1;
    }
}

/// Full brightness leaves every color unchanged.
pub proof fn full_brightness_is_identity(color: RGB8)
    ensures
        dimmed(color, 255) == color,
{
}

/// Static resources of a simple strip (none are needed).
pub struct SimpleStripStatic<const N: usize> {
    _priv: (),
}

impl<const N: usize> SimpleStripStatic<N> {
    /// The resources.
    pub fn new_static() -> (resources: Self) {
        Self { _priv: () }
    }
}

} // verus!
