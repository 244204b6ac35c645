//! Blinking text on four-digit displays: what each half of a blink writes and how long it lasts.

use vstd::prelude::*;

use crate::led4::{BLINK_OFF_DELAY, BLINK_ON_DELAY};

verus! {

/// Whether the text blinks, and if so which half of the blink it is in.
#[derive(Clone, Copy, Debug, PartialEq, Eq, Structural)]
pub enum BlinkState {
    Solid,
    BlinkingAndOn,
    BlinkingButOff,
}

/// The characters written in `state`: the text, or blanks in the dark half of a blink.
pub open spec fn blink_state_written(state: BlinkState, text: [char; 4]) -> [char; 4] {
    match state {
        BlinkState::BlinkingButOff => [' ', ' ', ' ', ' '],
        _ => text,
    }
}

/// How long `state` lasts unless a new command comes first: solid text until the next
/// command, 150 ms lit, 50 ms dark.
pub open spec fn blink_state_timer(state: BlinkState) -> Option<u64> {
    match state {
        BlinkState::Solid => None,
        BlinkState::BlinkingAndOn => Some(BLINK_ON_DELAY),
        BlinkState::BlinkingButOff => Some(BLINK_OFF_DELAY),
    }
}

/// The state after its timer ran out: the two halves of a blink alternate.
pub open spec fn blink_state_next(state: BlinkState) -> BlinkState {
    match state {
        BlinkState::Solid => BlinkState::Solid,
        BlinkState::BlinkingAndOn => BlinkState::BlinkingButOff,
        BlinkState::BlinkingButOff => BlinkState::BlinkingAndOn,
    }
}

impl BlinkState {
    /// Solid text.
    pub fn default() -> (state: Self)
        ensures
            state == BlinkState::Solid,
    {
        BlinkState::Solid
    }

    /// What to write for `text` in this state, and how long to wait for a new command
    /// before the timer runs out (`None`: no timer).
    pub fn execute_round(self, text: [char; 4]) -> (round: ([char; 4], Option<u64>))
        ensures
            round.0@ == blink_state_written(self, text)@,
            round.1 == blink_state_timer(self),
    {
        match self {
            BlinkState::Solid => (text, None),
            BlinkState::BlinkingAndOn => (text, Some(BLINK_ON_DELAY)),
            BlinkState::BlinkingButOff => ([' ', ' ', ' ', ' '], Some(BLINK_OFF_DELAY)),
        }
    }

    /// The state after the timer ran out without a new command; the text is kept.
    pub fn after_timer(self) -> (next: Self)
        ensures
            next == blink_state_next(self),
    {
        match self {
            BlinkState::Solid => BlinkState::Solid,
            BlinkState::BlinkingAndOn => BlinkState::BlinkingButOff,
            BlinkState::BlinkingButOff => BlinkState::BlinkingAndOn,
        }
    }
}

/// Blinking alternates: two timer rounds come back to the same half, and the halves
/// differ in what they write unless the text is blank.
pub proof fn blink_state_alternates(state: BlinkState, text: [char; 4])
    requires
        state != BlinkState::Solid,
    ensures
        blink_state_next(blink_state_next(state)) == state,
        blink_state_next(state) != state,
        blink_state_timer(state) is Some,
{
}

/// Only the dark half of a blink hides the text: solid text and the lit half write the
/// text as it is and the dark half four blanks, so the halves differ unless the text is
/// blank. Solid text waits for the next command; the lit half lasts `BLINK_ON_DELAY` and
/// turns dark, the dark half lasts `BLINK_OFF_DELAY` and turns lit.
pub proof fn blink_state_halves(text: [char; 4])
    ensures
        blink_state_written(BlinkState::Solid, text) == text,
        blink_state_written(BlinkState::BlinkingAndOn, text) == text,
        blink_state_written(BlinkState::BlinkingButOff, text) == [' ', ' ', ' ', ' '],
        blink_state_written(BlinkState::BlinkingAndOn, text) != blink_state_written(BlinkState::BlinkingButOff, text) || text == [
            ' ',
            ' ',
            ' ',
            ' ',
        ],
        blink_state_timer(BlinkState::Solid) is None,
        blink_state_timer(BlinkState::BlinkingAndOn) == Some(BLINK_ON_DELAY),
        blink_state_timer(BlinkState::BlinkingButOff) == Some(BLINK_OFF_DELAY),
        blink_state_next(BlinkState::Solid) == BlinkState::Solid,
        blink_state_next(BlinkState::BlinkingAndOn) == BlinkState::BlinkingButOff,
        blink_state_next(BlinkState::BlinkingButOff) == BlinkState::BlinkingAndOn,
{
}

} // verus!
