//! The four-digit seven-segment display: blinking text and looping text animations.

use vstd::prelude::*;

verus! {

/// Number of digits.
pub const CELL_COUNT: usize = 4;

/// Segments per digit, decimal point included.
pub const SEGMENT_COUNT: usize = 8;

/// Time each digit is lit while multiplexing, in ticks (3 ms).
pub const MULTIPLEX_SLEEP: u64 = 3_000;

/// Time blinking text stays dark, in ticks (50 ms).
pub const BLINK_OFF_DELAY: u64 = 50_000;

/// Time blinking text stays lit, in ticks (150 ms).
pub const BLINK_ON_DELAY: u64 = 150_000;

/// Most frames in a text animation.
pub const ANIMATION_MAX_FRAMES: usize = 16;

/// Whether text blinks, and if so which half of the blink it is in.
#[derive(Clone, Copy, Debug, PartialEq, Eq, Structural)]
pub enum BlinkState {
    Solid,
    BlinkingAndOn,
    BlinkingButOff,
}

impl BlinkState {
    /// Solid text.
    pub fn default() -> (state: Self)
        ensures
            state == BlinkState::Solid,
    {
        BlinkState::Solid
    }
}

/// One frame of a text animation: four characters shown for `duration` ticks.
#[derive(Clone, Copy, Debug)]
pub struct AnimationFrame {
    pub text: [char; CELL_COUNT],
    pub duration: u64,
}

impl AnimationFrame {
    /// A frame showing `text` for `duration` ticks.
    pub fn new(text: [char; CELL_COUNT], duration: u64) -> (frame: Self)
        ensures
            frame == (AnimationFrame { text, duration }),
    {
        AnimationFrame { text, duration }
    }
}

/// What the display shows: text (maybe blinking), or frame `index` of an animation of
/// `frame_count` frames.
#[derive(Clone, Copy, Debug)]
pub enum Led4Mode {
    Text { blink_state: BlinkState, text: [char; CELL_COUNT] },
    Animation { frame_count: usize, index: usize },
}

/// What to write to the digits in one round.
#[derive(Clone, Copy, Debug)]
pub enum Led4Output {
    /// These four characters.
    Text([char; CELL_COUNT]),
    /// The text of animation frame `index`.
    Frame(usize),
    /// Nothing; the display keeps what it shows.
    Keep,
}

/// How long to wait for a new command before the round's timer runs out.
#[derive(Clone, Copy, Debug, PartialEq, Eq, Structural)]
pub enum Led4Wait {
    /// No timer: wait for the next command.
    ForCommand,
    /// This many ticks.
    Ticks(u64),
    /// The duration of animation frame `index`.
    FrameDuration(usize),
}

/// The animation position is within the animation.
pub open spec fn led4_mode_wf(mode: Led4Mode) -> bool {
    match mode {
        Led4Mode::Text { .. } => true,
        Led4Mode::Animation { frame_count, index } => frame_count == 0 || index < frame_count,
    }
}

/// Output and wait of one round: solid text is written and the loop waits for a command;
/// blinking text alternates between the text for 150 ms and blanks for 50 ms; an
/// animation shows its current frame for the frame's duration; an empty animation
/// leaves the display as it is until the next command.
pub open spec fn led4_round_spec(mode: Led4Mode) -> (Led4Output, Led4Wait) {
    match mode {
        Led4Mode::Text { blink_state, text } => match blink_state {
            BlinkState::Solid => (Led4Output::Text(text), Led4Wait::ForCommand),
            BlinkState::BlinkingAndOn => (Led4Output::Text(text), Led4Wait::Ticks(BLINK_ON_DELAY)),
            BlinkState::BlinkingButOff => (
                Led4Output::Text([' ', ' ', ' ', ' ']),
                Led4Wait::Ticks(BLINK_OFF_DELAY),
            ),
        },
        Led4Mode::Animation { frame_count, index } => if frame_count == 0 {
            (Led4Output::Keep, Led4Wait::ForCommand)
        } else {
            (Led4Output::Frame(index), Led4Wait::FrameDuration(index))
        },
    }
}

/// The mode after the round's timer ran out: blinking flips between on and off, and an
/// animation moves to its next frame, wrapping around.
pub open spec fn led4_after_timer_spec(mode: Led4Mode) -> Led4Mode {
    match mode {
        Led4Mode::Text { blink_state, text } => match blink_state {
            BlinkState::BlinkingAndOn => Led4Mode::Text { blink_state: BlinkState::BlinkingButOff, text },
            BlinkState::BlinkingButOff => Led4Mode::Text { blink_state: BlinkState::BlinkingAndOn, text },
            BlinkState::Solid => mode,
        },
        Led4Mode::Animation { frame_count, index } => if frame_count == 0 {
            mode
        } else {
            Led4Mode::Animation { frame_count, index: ((index + 1) % (frame_count as int)) as usize }
        },
    }
}

/// What to write and how long to wait in `mode`; see [`led4_round_spec`].
pub fn led4_round(mode: Led4Mode) -> (round: (Led4Output, Led4Wait))
    ensures
        round == led4_round_spec(mode),
{
    match mode {
        Led4Mode::Text { blink_state, text } => match blink_state {
            BlinkState::Solid => (Led4Output::Text(text), Led4Wait::ForCommand),
            BlinkState::BlinkingAndOn => (Led4Output::Text(text), Led4Wait::Ticks(BLINK_ON_DELAY)),
            BlinkState::BlinkingButOff => (
                Led4Output::Text([' ', ' ', ' ', ' ']),
                Led4Wait::Ticks(BLINK_OFF_DELAY),
            ),
        },
        Led4Mode::Animation { frame_count, index } => {
            if frame_count == 0 {
                (Led4Output::Keep, Led4Wait::ForCommand)
            } else {
                (Led4Output::Frame(index), Led4Wait::FrameDuration(index))
            }
        },
    }
}

/// The mode after the round's timer ran out; see [`led4_after_timer_spec`].
pub fn led4_after_timer(mode: Led4Mode) -> (next: Led4Mode)
    requires
        led4_mode_wf(mode),
    ensures
        next == led4_after_timer_spec(mode),
        led4_mode_wf(next),
{
    match mode {
        Led4Mode::Text { blink_state, text } => match blink_state {
            BlinkState::BlinkingAndOn => Led4Mode::Text { blink_state: BlinkState::BlinkingButOff, text },
            BlinkState::BlinkingButOff => Led4Mode::Text { blink_state: BlinkState::BlinkingAndOn, text },
            BlinkState::Solid => mode,
        },
        Led4Mode::Animation { frame_count, index } => {
            if frame_count == 0 {
                mode
            } else {
                Led4Mode::Animation { frame_count, index: (index + 1) % frame_count }
            }
        },
    }
}

/// Blinking text comes back to where it was after two timer rounds, showing the text in
/// one and blanks in the other.
pub proof fn blinking_alternates(text: [char; CELL_COUNT], blink_state: BlinkState)
    requires
        blink_state != BlinkState::Solid,
    ensures
        led4_after_timer_spec(
            led4_after_timer_spec(Led4Mode::Text { blink_state, text }),
        ) == (Led4Mode::Text { blink_state, text }),
        led4_round_spec(Led4Mode::Text { blink_state, text }).0 != led4_round_spec(
            led4_after_timer_spec(Led4Mode::Text { blink_state, text }),
        ).0 || text == [' ', ' ', ' ', ' '],
{
}

} // verus!
