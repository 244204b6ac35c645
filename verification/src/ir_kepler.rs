//! The buttons of the Kepler IR remote and the NEC codes they send.

use vstd::prelude::*;

use crate::ir_mapping::{map_after, ButtonMap, IrMappingStatic};

verus! {

/// Number of buttons on the remote.
pub const KEPLER_BUTTON_COUNT: usize = 21;

/// A button of the Kepler remote.
#[derive(Clone, Copy, Debug, PartialEq, Eq, Structural)]
pub enum KeplerButton {
    Power,
    Mode,
    Mute,
    PlayPause,
    Prev,
    Next,
    Eq,
    Minus,
    Plus,
    Num(u8),
    Repeat,
    USd,
}

/// The remote's codes (all with address 0) and their buttons, row by row as on the
/// remote.
pub open spec fn kepler_pairs() -> Seq<(u16, u8, KeplerButton)> {
    seq![
        (0x0000u16, 0x45u8, KeplerButton::Power),
        (0x0000u16, 0x46u8, KeplerButton::Mode),
        (0x0000u16, 0x47u8, KeplerButton::Mute),
        (0x0000u16, 0x44u8, KeplerButton::PlayPause),
        (0x0000u16, 0x40u8, KeplerButton::Prev),
        (0x0000u16, 0x43u8, KeplerButton::Next),
        (0x0000u16, 0x07u8, KeplerButton::Eq),
        (0x0000u16, 0x15u8, KeplerButton::Minus),
        (0x0000u16, 0x09u8, KeplerButton::Plus),
        (0x0000u16, 0x16u8, KeplerButton::Num(0)),
        (0x0000u16, 0x19u8, KeplerButton::Repeat),
        (0x0000u16, 0x0Du8, KeplerButton::USd),
        (0x0000u16, 0x0Cu8, KeplerButton::Num(1)),
        (0x0000u16, 0x18u8, KeplerButton::Num(2)),
        (0x0000u16, 0x5Eu8, KeplerButton::Num(3)),
        (0x0000u16, 0x08u8, KeplerButton::Num(4)),
        (0x0000u16, 0x1Cu8, KeplerButton::Num(5)),
        (0x0000u16, 0x5Au8, KeplerButton::Num(6)),
        (0x0000u16, 0x42u8, KeplerButton::Num(7)),
        (0x0000u16, 0x52u8, KeplerButton::Num(8)),
        (0x0000u16, 0x4Au8, KeplerButton::Num(9)),
    ]
}

/// The remote's codes and buttons.
pub fn kepler_mapping() -> (pairs: Vec<(u16, u8, KeplerButton)>)
    ensures
        pairs@ == kepler_pairs(),
{
    let mut pairs: Vec<(u16, u8, KeplerButton)> = Vec::new();
    pairs.push((0x0000, 0x45, KeplerButton::Power));
    pairs.push((0x0000, 0x46, KeplerButton::Mode));
    pairs.push((0x0000, 0x47, KeplerButton::Mute));
    pairs.push((0x0000, 0x44, KeplerButton::PlayPause));
    pairs.push((0x0000, 0x40, KeplerButton::Prev));
    pairs.push((0x0000, 0x43, KeplerButton::Next));
    pairs.push((0x0000, 0x07, KeplerButton::Eq));
    pairs.push((0x0000, 0x15, KeplerButton::Minus));
    pairs.push((0x0000, 0x09, KeplerButton::Plus));
    pairs.push((0x0000, 0x16, KeplerButton::Num(0)));
    pairs.push((0x0000, 0x19, KeplerButton::Repeat));
    pairs.push((0x0000, 0x0D, KeplerButton::USd));
    pairs.push((0x0000, 0x0C, KeplerButton::Num(1)));
    pairs.push((0x0000, 0x18, KeplerButton::Num(2)));
    pairs.push((0x0000, 0x5E, KeplerButton::Num(3)));
    pairs.push((0x0000, 0x08, KeplerButton::Num(4)));
    pairs.push((0x0000, 0x1C, KeplerButton::Num(5)));
    pairs.push((0x0000, 0x5A, KeplerButton::Num(6)));
    pairs.push((0x0000, 0x42, KeplerButton::Num(7)));
    pairs.push((0x0000, 0x52, KeplerButton::Num(8)));
    pairs.push((0x0000, 0x4A, KeplerButton::Num(9)));
    assert(pairs@ =~= kepler_pairs());
    pairs
}

/// The code-to-button map of the remote.
pub fn kepler_button_map() -> (map: ButtonMap<KeplerButton, KEPLER_BUTTON_COUNT>)
    ensures
        map.wf(),
        map.view_map() == map_after(kepler_pairs(), 21, 21),
{
    let pairs = kepler_mapping();
    ButtonMap::new(pairs.as_slice())
}

/// Static resources of the Kepler remote device.
pub struct IrKeplerStatic(IrMappingStatic);

impl IrKeplerStatic {
    /// The resources.
    pub fn new() -> (resources: Self) {
        IrKeplerStatic(IrMappingStatic::new())
    }

    /// The resources of the underlying IR mapping.
    pub fn inner(&self) -> (inner: &IrMappingStatic) {
        &self.0
    }
}

} // verus!
