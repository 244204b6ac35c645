//! The blinker of the four-digit display: what each half of a blink writes and how long it lasts.

use vstd::prelude::*;

use crate::led4::{BLINK_OFF_DELAY, BLINK_ON_DELAY};

verus! {

/// Whether the text blinks, and if so which half of the blink it is in.
#[derive(Clone, Copy, Debug, PartialEq, Eq, Structural)]
pub enum BlinkState4Led {
    Solid,
    BlinkingAndOn,
    BlinkingButOff,
}

/// The characters written in `state`: the text, or blanks in the dark half of a blink.
pub open spec fn blink_state_4led_written(state: BlinkState4Led, text: [char; 4]) -> [char; 4] {
    match state {
        BlinkState4Led::BlinkingButOff => [' ', ' ', ' ', ' '],
        _ => text,
    }
}

/// How long `state` lasts unless a new command comes first: solid text until the next
/// command, 150 ms lit, 50 ms dark.
pub open spec fn blink_state_4led_timer(state: BlinkState4Led) -> Option<u64> {
    match state {
        BlinkState4Led::Solid => None,
        BlinkState4Led::BlinkingAndOn => Some(BLINK_ON_DELAY),
        BlinkState4Led::BlinkingButOff => Some(BLINK_OFF_DELAY),
    }
}

/// The state after its timer ran out: the two halves of a blink alternate.
pub open spec fn blink_state_4led_next(state: BlinkState4Led) -> BlinkState4Led {
    match state {
        BlinkState4Led::Solid => BlinkState4Led::Solid,
        BlinkState4Led::BlinkingAndOn => BlinkState4Led::BlinkingButOff,
        BlinkState4Led::BlinkingButOff => BlinkState4Led::BlinkingAndOn,
    }
}

/// The state and text after a round in `state` showing `text`: the command that came
/// during the round (`message`), or else the next state with the same text.
pub open spec fn blink_state_4led_after(
    state: BlinkState4Led,
    text: [char; 4],
    message: Option<(BlinkState4Led, [char; 4])>,
) -> (BlinkState4Led, [char; 4]) {
    match message {
        Some(command) => command,
        None => (blink_state_4led_next(state), text),
    }
}

impl BlinkState4Led {
    /// Solid text.
    pub fn default() -> (state: Self)
        ensures
            state == BlinkState4Led::Solid,
    {
        BlinkState4Led::Solid
    }

    /// What to write for `text` in this state, and how long to wait for a new command
    /// before the timer runs out (`None`: no timer).
    pub fn execute_round(self, text: [char; 4]) -> (round: ([char; 4], Option<u64>))
        ensures
            round.0@ == blink_state_4led_written(self, text)@,
            round.1 == blink_state_4led_timer(self),
    {
        match self {
            BlinkState4Led::Solid => (text, None),
            BlinkState4Led::BlinkingAndOn => (text, Some(BLINK_ON_DELAY)),
            BlinkState4Led::BlinkingButOff => ([' ', ' ', ' ', ' '], Some(BLINK_OFF_DELAY)),
        }
    }

    /// The state after the timer ran out without a new command; the text is kept.
    pub fn after_timer(self) -> (next: Self)
        ensures
            next == blink_state_4led_next(self),
    {
        match self {
            BlinkState4Led::Solid => BlinkState4Led::Solid,
            BlinkState4Led::BlinkingAndOn => BlinkState4Led::BlinkingButOff,
            BlinkState4Led::BlinkingButOff => BlinkState4Led::BlinkingAndOn,
        }
    }
}

impl BlinkState4Led {
    /// The state and text for the next round, once the round in this state showing `text`
    /// has ended: with the command that came (`Some`), or when the timer ran out (`None`).
    pub fn after_round(self, text: [char; 4], message: Option<(BlinkState4Led, [char; 4])>) -> (next: (
        BlinkState4Led,
        [char; 4],
    ))
        ensures
            next == blink_state_4led_after(self, text, message),
    {
        match message {
            Some(command) => command,
            None => (self.after_timer(), text),
        }
    }
}

/// One round of a blinking display: it writes the text, or blanks in the dark half,
/// waits that half's duration for a command, and then follows the command that came,
/// or else turns to the other half with the same text.
pub proof fn blink_state_4led_round(
    state: BlinkState4Led,
    text: [char; 4],
    message: Option<(BlinkState4Led, [char; 4])>,
)
    requires
        state != BlinkState4Led::Solid,
    ensures
        blink_state_4led_written(state, text) == (if state == BlinkState4Led::BlinkingButOff {
            [' ', ' ', ' ', ' ']
        } else {
            text
        }),
        blink_state_4led_timer(state) == Some(
            if state == BlinkState4Led::BlinkingAndOn {
                BLINK_ON_DELAY
            } else {
                BLINK_OFF_DELAY
            },
        ),
        message matches Some(command) ==> blink_state_4led_after(state, text, message) == command,
        message is None ==> blink_state_4led_after(state, text, message) == (
            if state == BlinkState4Led::BlinkingAndOn {
                BlinkState4Led::BlinkingButOff
            } else {
                BlinkState4Led::BlinkingAndOn
            },
            text,
        ),
{
}

/// Blinking alternates: two timer rounds come back to the same half, and the halves
/// differ in what they write unless the text is blank.
pub proof fn blink_state_4led_alternates(state: BlinkState4Led, text: [char; 4])
    requires
        state != BlinkState4Led::Solid,
    ensures
        blink_state_4led_next(blink_state_4led_next(state)) == state,
        blink_state_4led_next(state) != state,
        blink_state_4led_timer(state) is Some,
{
}

/// Only the dark half of a blink hides the text: solid text and the lit half write the
/// text as it is and the dark half four blanks, so the halves differ unless the text is
/// blank. Solid text waits for the next command; the lit half lasts `BLINK_ON_DELAY` and
/// turns dark, the dark half lasts `BLINK_OFF_DELAY` and turns lit.
pub proof fn blink_state_4led_halves(text: [char; 4])
    ensures
        blink_state_4led_written(BlinkState4Led::Solid, text) == text,
        blink_state_4led_written(BlinkState4Led::BlinkingAndOn, text) == text,
        blink_state_4led_written(BlinkState4Led::BlinkingButOff, text) == [' ', ' ', ' ', ' '],
        blink_state_4led_written(BlinkState4Led::BlinkingAndOn, text) != blink_state_4led_written(BlinkState4Led::BlinkingButOff, text) || text == [
            ' ',
            ' ',
            ' ',
            ' ',
        ],
        blink_state_4led_timer(BlinkState4Led::Solid) is None,
        blink_state_4led_timer(BlinkState4Led::BlinkingAndOn) == Some(BLINK_ON_DELAY),
        blink_state_4led_timer(BlinkState4Led::BlinkingButOff) == Some(BLINK_OFF_DELAY),
        blink_state_4led_next(BlinkState4Led::Solid) == BlinkState4Led::Solid,
        blink_state_4led_next(BlinkState4Led::BlinkingAndOn) == BlinkState4Led::BlinkingButOff,
        blink_state_4led_next(BlinkState4Led::BlinkingButOff) == BlinkState4Led::BlinkingAndOn,
{
}

} // verus!
