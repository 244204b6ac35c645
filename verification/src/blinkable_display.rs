//! A display that blinks its four characters: what each half of a blink writes and how long it lasts.

use vstd::prelude::*;

use crate::led4::{BLINK_OFF_DELAY, BLINK_ON_DELAY};

verus! {

/// Whether the text blinks, and if so which half of the blink it is in.
#[derive(Clone, Copy, Debug, PartialEq, Eq, Structural)]
pub enum BlinkMode {
    Solid,
    BlinkingAndOn,
    BlinkingButOff,
}

/// The characters written in `state`: the text, or blanks in the dark half of a blink.
pub open spec fn blink_mode_written(state: BlinkMode, text: [char; 4]) -> [char; 4] {
    match state {
        BlinkMode::BlinkingButOff => [' ', ' ', ' ', ' '],
        _ => text,
    }
}

/// How long `state` lasts unless a new command comes first: solid text until the next
/// command, 150 ms lit, 50 ms dark.
pub open spec fn blink_mode_timer(state: BlinkMode) -> Option<u64> {
    match state {
        BlinkMode::Solid => None,
        BlinkMode::BlinkingAndOn => Some(BLINK_ON_DELAY),
        BlinkMode::BlinkingButOff => Some(BLINK_OFF_DELAY),
    }
}

/// The state after its timer ran out: the two halves of a blink alternate.
pub open spec fn blink_mode_next(state: BlinkMode) -> BlinkMode {
    match state {
        BlinkMode::Solid => BlinkMode::Solid,
        BlinkMode::BlinkingAndOn => BlinkMode::BlinkingButOff,
        BlinkMode::BlinkingButOff => BlinkMode::BlinkingAndOn,
    }
}

impl BlinkMode {
    /// Solid text.
    pub fn default() -> (state: Self)
        ensures
            state == BlinkMode::Solid,
    {
        BlinkMode::Solid
    }

    /// What to write for `text` in this state, and how long to wait for a new command
    /// before the timer runs out (`None`: no timer).
    pub fn execute_round(self, text: [char; 4]) -> (round: ([char; 4], Option<u64>))
        ensures
            round.0@ == blink_mode_written(self, text)@,
            round.1 == blink_mode_timer(self),
    {
        match self {
            BlinkMode::Solid => (text, None),
            BlinkMode::BlinkingAndOn => (text, Some(BLINK_ON_DELAY)),
            BlinkMode::BlinkingButOff => ([' ', ' ', ' ', ' '], Some(BLINK_OFF_DELAY)),
        }
    }

    /// The state after the timer ran out without a new command; the text is kept.
    pub fn after_timer(self) -> (next: Self)
        ensures
            next == blink_mode_next(self),
    {
        match self {
            BlinkMode::Solid => BlinkMode::Solid,
            BlinkMode::BlinkingAndOn => BlinkMode::BlinkingButOff,
            BlinkMode::BlinkingButOff => BlinkMode::BlinkingAndOn,
        }
    }
}

/// Blinking alternates: two timer rounds come back to the same half, and the halves
/// differ in what they write unless the text is blank.
pub proof fn blink_mode_alternates(state: BlinkMode, text: [char; 4])
    requires
        state != BlinkMode::Solid,
    ensures
        blink_mode_next(blink_mode_next(state)) == state,
        blink_mode_next(state) != state,
        blink_mode_timer(state) is Some,
{
}

/// Only the dark half of a blink hides the text: solid text and the lit half write the
/// text as it is and the dark half four blanks, so the halves differ unless the text is
/// blank. Solid text waits for the next command; the lit half lasts `BLINK_ON_DELAY` and
/// turns dark, the dark half lasts `BLINK_OFF_DELAY` and turns lit.
pub proof fn blink_mode_halves(text: [char; 4])
    ensures
        blink_mode_written(BlinkMode::Solid, text) == text,
        blink_mode_written(BlinkMode::BlinkingAndOn, text) == text,
        blink_mode_written(BlinkMode::BlinkingButOff, text) == [' ', ' ', ' ', ' '],
        blink_mode_written(BlinkMode::BlinkingAndOn, text) != blink_mode_written(BlinkMode::BlinkingButOff, text) || text == [
            ' ',
            ' ',
            ' ',
            ' ',
        ],
        blink_mode_timer(BlinkMode::Solid) is None,
        blink_mode_timer(BlinkMode::BlinkingAndOn) == Some(BLINK_ON_DELAY),
        blink_mode_timer(BlinkMode::BlinkingButOff) == Some(BLINK_OFF_DELAY),
        blink_mode_next(BlinkMode::Solid) == BlinkMode::Solid,
        blink_mode_next(BlinkMode::BlinkingAndOn) == BlinkMode::BlinkingButOff,
        blink_mode_next(BlinkMode::BlinkingButOff) == BlinkMode::BlinkingAndOn,
{
}

} // verus!
