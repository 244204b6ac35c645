//! Modes of the four-digit clock, what each shows, and how button presses and time
//! synchronisation move between them.

use vstd::prelude::*;

use crate::button::PressDuration;
use crate::clock_led4::time::ClockTime;
use crate::clock_time::{h_m_s, now_ticks, time_of_day, ONE_MINUTE, ONE_SECOND};
use crate::led4::BlinkState;
use crate::time_sync::UnixSeconds;

verus! {

/// Time each frame of the "connecting" spinner is shown, in ticks (120 ms).
pub const CONNECTING_FRAME_DURATION: u64 = 120_000;

/// Half-period of blinking while editing or waiting for setup, in ticks (500 ms).
pub const EDIT_BLINK_DURATION: u64 = 500_000;

/// How long the clock tries to connect before offering access-point setup, in ticks.
pub const CONNECT_TIMEOUT: u64 = 60_000_000;

/// The modes of the clock.
#[derive(Clone, Copy, Debug, PartialEq, Eq, Structural)]
pub enum ClockLed4State {
    HoursMinutes,
    Connecting,
    MinutesSeconds,
    EditUtcOffset,
    AccessPointSetup,
}

/// The character of a decimal digit `0` to `9`.
pub open spec fn digit_char(d: int) -> char {
    (d + 48) as char
}

/// The tens digit of `value`.
pub fn tens_digit(value: u8) -> (c: char)
    requires
        value < 100,
    ensures
        c == digit_char(value as int / 10),
{
    ((value / 10) + 48) as char
}

/// The ones digit of `value`.
pub fn ones_digit(value: u8) -> (c: char)
    ensures
        c == digit_char(value as int % 10),
{
    ((value % 10) + 48) as char
}

/// The tens place of an hour on the 12-hour dial: `1` for 10 to 12, blank otherwise.
pub fn tens_hours(value: u8) -> (c: char)
    ensures
        c == if value >= 10 { '1' } else { ' ' },
{
    if value >= 10 {
        '1'
    } else {
        ' '
    }
}

/// Hours and minutes on the four digits: a blank or `1`, the hour's ones digit, then the
/// two digits of the minutes.
pub open spec fn hours_minutes_chars(hours: int, minutes: int) -> [char; 4] {
    [
        if hours >= 10 { '1' } else { ' ' },
        digit_char(hours % 10),
        digit_char(minutes / 10),
        digit_char(minutes % 10),
    ]
}

/// Minutes and seconds on the four digits.
pub open spec fn minutes_seconds_chars(minutes: int, seconds: int) -> [char; 4] {
    [digit_char(minutes / 10), digit_char(minutes % 10), digit_char(seconds / 10), digit_char(seconds % 10)]
}

/// The spinner frames shown while connecting: a dot running around the edge.
pub open spec fn connecting_frame(index: int) -> [char; 4] {
    if index == 0 {
        ['\'', '\'', '\'', '\'']
    } else if index == 1 {
        ['\'', '\'', '\'', '"']
    } else if index == 2 {
        [' ', ' ', ' ', '>']
    } else if index == 3 {
        [' ', ' ', ' ', ')']
    } else if index == 4 {
        ['_', '_', '_', '_']
    } else if index == 5 {
        ['*', '_', '_', '_']
    } else if index == 6 {
        ['<', ' ', ' ', ' ']
    } else {
        ['(', '\'', '\'', '\'']
    }
}

/// What each mode shows at time of day `time` (in ticks): blink state, the four
/// characters, and how long until the display needs redrawing.
pub open spec fn render_spec(state: ClockLed4State, time: int) -> (BlinkState, [char; 4], int) {
    match state {
        ClockLed4State::HoursMinutes => (
            BlinkState::Solid,
            hours_minutes_chars(h_m_s(time).0, h_m_s(time).1),
            ONE_MINUTE - time % (ONE_MINUTE as int),
        ),
        ClockLed4State::Connecting => (
            BlinkState::Solid,
            connecting_frame((time / (CONNECTING_FRAME_DURATION as int)) % 8),
            CONNECTING_FRAME_DURATION as int,
        ),
        ClockLed4State::MinutesSeconds => (
            BlinkState::Solid,
            minutes_seconds_chars(h_m_s(time).1, h_m_s(time).2),
            ONE_SECOND - time % (ONE_SECOND as int),
        ),
        ClockLed4State::EditUtcOffset => (
            BlinkState::BlinkingAndOn,
            hours_minutes_chars(h_m_s(time).0, h_m_s(time).1),
            EDIT_BLINK_DURATION as int,
        ),
        ClockLed4State::AccessPointSetup => (
            BlinkState::BlinkingAndOn,
            ['C', 'O', 'n', 'n'],
            EDIT_BLINK_DURATION as int,
        ),
    }
}

/// What woke the clock's state machine.
#[derive(Clone, Copy, Debug, PartialEq, Eq, Structural)]
pub enum ClockLed4Event {
    /// The button was pressed.
    Press(PressDuration),
    /// Time synchronisation read the network time.
    SyncSucceeded(UnixSeconds),
    /// Time synchronisation failed.
    SyncFailed,
    /// The connection attempt ran out of time.
    ConnectTimedOut,
}

/// What the clock does besides changing mode.
#[derive(Clone, Copy, Debug, PartialEq, Eq, Structural)]
pub enum ClockLed4Effect {
    Nothing,
    /// Set the time from this timestamp.
    SetTime(UnixSeconds),
    /// Move the UTC offset forward by one hour.
    AdvanceUtcOffset,
}

/// The events each mode waits for: the display modes wait for the button or a time
/// sync, editing for the button only, connecting for a time sync or its deadline, and
/// setup for a time sync.
pub open spec fn waits_for(state: ClockLed4State, event: ClockLed4Event) -> bool {
    match state {
        ClockLed4State::HoursMinutes | ClockLed4State::MinutesSeconds => !(event is ConnectTimedOut),
        ClockLed4State::EditUtcOffset => event is Press,
        ClockLed4State::Connecting => !(event is Press),
        ClockLed4State::AccessPointSetup => event is SyncSucceeded || event is SyncFailed,
    }
}

/// The next mode and effect. A short press toggles between hours-minutes and
/// minutes-seconds and, while editing, moves the offset forward an hour; a long press
/// enters editing from the display modes and leaves it to hours-minutes. A successful
/// sync sets the time, and ends connecting or setup in hours-minutes; a failed one
/// changes nothing. Connecting that times out offers access-point setup.
pub open spec fn step_spec(state: ClockLed4State, event: ClockLed4Event) -> (ClockLed4State, ClockLed4Effect) {
    match event {
        ClockLed4Event::Press(PressDuration::Short) => match state {
            ClockLed4State::HoursMinutes => (ClockLed4State::MinutesSeconds, ClockLed4Effect::Nothing),
            ClockLed4State::MinutesSeconds => (ClockLed4State::HoursMinutes, ClockLed4Effect::Nothing),
            ClockLed4State::EditUtcOffset => (ClockLed4State::EditUtcOffset, ClockLed4Effect::AdvanceUtcOffset),
            _ => (state, ClockLed4Effect::Nothing),
        },
        ClockLed4Event::Press(PressDuration::Long) => match state {
            ClockLed4State::HoursMinutes | ClockLed4State::MinutesSeconds => (
                ClockLed4State::EditUtcOffset,
                ClockLed4Effect::Nothing,
            ),
            ClockLed4State::EditUtcOffset => (ClockLed4State::HoursMinutes, ClockLed4Effect::Nothing),
            _ => (state, ClockLed4Effect::Nothing),
        },
        ClockLed4Event::SyncSucceeded(unix_seconds) => match state {
            ClockLed4State::Connecting | ClockLed4State::AccessPointSetup => (
                ClockLed4State::HoursMinutes,
                ClockLed4Effect::SetTime(unix_seconds),
            ),
            _ => (state, ClockLed4Effect::SetTime(unix_seconds)),
        },
        ClockLed4Event::SyncFailed => (state, ClockLed4Effect::Nothing),
        ClockLed4Event::ConnectTimedOut => match state {
            ClockLed4State::Connecting => (ClockLed4State::AccessPointSetup, ClockLed4Effect::Nothing),
            _ => (state, ClockLed4Effect::Nothing),
        },
    }
}

impl ClockLed4State {
    /// The mode the clock starts in.
    pub fn default() -> (state: Self)
        ensures
            state == ClockLed4State::HoursMinutes,
    {
        ClockLed4State::HoursMinutes
    }

    /// The next mode and effect for an event the mode waits for; see [`step_spec`].
    pub fn next(self, event: ClockLed4Event) -> (next: (ClockLed4State, ClockLed4Effect))
        requires
            waits_for(self, event),
        ensures
            next == step_spec(self, event),
    {
        match event {
            ClockLed4Event::Press(PressDuration::Short) => match self {
                ClockLed4State::HoursMinutes => (ClockLed4State::MinutesSeconds, ClockLed4Effect::Nothing),
                ClockLed4State::MinutesSeconds => (ClockLed4State::HoursMinutes, ClockLed4Effect::Nothing),
                ClockLed4State::EditUtcOffset => (
                    ClockLed4State::EditUtcOffset,
                    ClockLed4Effect::AdvanceUtcOffset,
                ),
                _ => (self, ClockLed4Effect::Nothing),
            },
            ClockLed4Event::Press(PressDuration::Long) => match self {
                ClockLed4State::HoursMinutes | ClockLed4State::MinutesSeconds => (
                    ClockLed4State::EditUtcOffset,
                    ClockLed4Effect::Nothing,
                ),
                ClockLed4State::EditUtcOffset => (ClockLed4State::HoursMinutes, ClockLed4Effect::Nothing),
                _ => (self, ClockLed4Effect::Nothing),
            },
            ClockLed4Event::SyncSucceeded(unix_seconds) => match self {
                ClockLed4State::Connecting | ClockLed4State::AccessPointSetup => (
                    ClockLed4State::HoursMinutes,
                    ClockLed4Effect::SetTime(unix_seconds),
                ),
                _ => (self, ClockLed4Effect::SetTime(unix_seconds)),
            },
            ClockLed4Event::SyncFailed => (self, ClockLed4Effect::Nothing),
            ClockLed4Event::ConnectTimedOut => match self {
                ClockLed4State::Connecting => (ClockLed4State::AccessPointSetup, ClockLed4Effect::Nothing),
                _ => (self, ClockLed4Effect::Nothing),
            },
        }
    }

    /// What the mode shows at time of day `time` ticks; see [`render_spec`].
    pub fn render_time(self, time: u64) -> (shown: (BlinkState, [char; 4], u64))
        requires
            time < crate::clock_time::TICKS_IN_ONE_DAY,
        ensures
            shown.0 == render_spec(self, time as int).0,
            shown.1@ == render_spec(self, time as int).1@,
            shown.2 == render_spec(self, time as int).2,
    {
        match self {
            ClockLed4State::HoursMinutes => {
                let (hours, minutes, _, sleep_duration) = crate::clock_time::h_m_s_of(time, ONE_MINUTE);
                (
                    BlinkState::Solid,
                    [tens_hours(hours), ones_digit(hours), tens_digit(minutes), ones_digit(minutes)],
                    sleep_duration,
                )
            },
            ClockLed4State::Connecting => {
                let frame_index = (time / CONNECTING_FRAME_DURATION) % 8;
                let frame = if frame_index == 0 {
                    ['\'', '\'', '\'', '\'']
                } else if frame_index == 1 {
                    ['\'', '\'', '\'', '"']
                } else if frame_index == 2 {
                    [' ', ' ', ' ', '>']
                } else if frame_index == 3 {
                    [' ', ' ', ' ', ')']
                } else if frame_index == 4 {
                    ['_', '_', '_', '_']
                } else if frame_index == 5 {
                    ['*', '_', '_', '_']
                } else if frame_index == 6 {
                    ['<', ' ', ' ', ' ']
                } else {
                    ['(', '\'', '\'', '\'']
                };
                (BlinkState::Solid, frame, CONNECTING_FRAME_DURATION)
            },
            ClockLed4State::MinutesSeconds => {
                let (_, minutes, seconds, sleep_duration) = crate::clock_time::h_m_s_of(time, ONE_SECOND);
                (
                    BlinkState::Solid,
                    [tens_digit(minutes), ones_digit(minutes), tens_digit(seconds), ones_digit(seconds)],
                    sleep_duration,
                )
            },
            ClockLed4State::EditUtcOffset => {
                let (hours, minutes, _, _) = crate::clock_time::h_m_s_of(time, ONE_MINUTE);
                (
                    BlinkState::BlinkingAndOn,
                    [tens_hours(hours), ones_digit(hours), tens_digit(minutes), ones_digit(minutes)],
                    EDIT_BLINK_DURATION,
                )
            },
            ClockLed4State::AccessPointSetup => (
                BlinkState::BlinkingAndOn,
                ['C', 'O', 'n', 'n'],
                EDIT_BLINK_DURATION,
            ),
        }
    }

    /// What the mode shows at `now_ticks` ticks since boot.
    pub fn render_at(self, clock_time: &ClockTime, now_ticks: u64) -> (shown: (BlinkState, [char; 4], u64))
        ensures
            shown.0 == render_spec(self, time_of_day(now_ticks, clock_time.offset_ticks())).0,
            shown.1@ == render_spec(self, time_of_day(now_ticks, clock_time.offset_ticks())).1@,
            shown.2 == render_spec(self, time_of_day(now_ticks, clock_time.offset_ticks())).2,
    {
        self.render_time(clock_time.now_at(now_ticks))
    }

    /// What the mode shows now.
    pub fn render(self, clock_time: &ClockTime) -> (shown: (BlinkState, [char; 4], u64))
        ensures
            (exists|t: u64|
                {
                    let shown_then = render_spec(self, #[trigger] time_of_day(t, clock_time.offset_ticks()));
                    shown.0 == shown_then.0 && shown.1@ == shown_then.1@ && shown.2 == shown_then.2
                }),
    {
        let now = now_ticks();
        let shown = self.render_at(clock_time, now);
        assert(shown.2 == render_spec(self, time_of_day(now, clock_time.offset_ticks())).2);
        shown
    }
}

/// The deadline for connecting that starts at `now_ticks`.
pub fn connect_deadline(now_ticks: u64) -> (deadline: u64)
    ensures
        deadline == if now_ticks + CONNECT_TIMEOUT <= u64::MAX {
            now_ticks + CONNECT_TIMEOUT
        } else {
            u64::MAX as int
        },
{
    now_ticks.saturating_add(CONNECT_TIMEOUT)
}

/// Ticks left before `deadline` at `now_ticks`, or `None` once it has passed.
pub fn connect_time_left(deadline: u64, now_ticks: u64) -> (left: Option<u64>)
    ensures
        left == if now_ticks >= deadline { None } else { Some((deadline - now_ticks) as u64) },
{
    if now_ticks >= deadline {
        None
    } else {
        Some(deadline - now_ticks)
    }
}

/// Two short presses bring the display modes back where they were.
pub proof fn short_press_twice_returns(state: ClockLed4State)
    requires
        state == ClockLed4State::HoursMinutes || state == ClockLed4State::MinutesSeconds,
    ensures
        step_spec(
            step_spec(state, ClockLed4Event::Press(PressDuration::Short)).0,
            ClockLed4Event::Press(PressDuration::Short),
        ).0 == state,
{
}

/// A long press enters editing from the display modes, and a long press in editing leaves
/// to hours-minutes; short presses while editing stay in editing and advance the offset.
pub proof fn long_press_toggles_editing(state: ClockLed4State)
    requires
        state == ClockLed4State::HoursMinutes || state == ClockLed4State::MinutesSeconds,
    ensures
        step_spec(state, ClockLed4Event::Press(PressDuration::Long)).0 == ClockLed4State::EditUtcOffset,
        step_spec(ClockLed4State::EditUtcOffset, ClockLed4Event::Press(PressDuration::Long)).0
            == ClockLed4State::HoursMinutes,
        step_spec(ClockLed4State::EditUtcOffset, ClockLed4Event::Press(PressDuration::Short)) == (
            ClockLed4State::EditUtcOffset,
            ClockLed4Effect::AdvanceUtcOffset,
        ),
{
}

/// Every successful time sync sets the clock, whatever the mode.
pub proof fn sync_always_sets_time(state: ClockLed4State, unix_seconds: UnixSeconds)
    ensures
        step_spec(state, ClockLed4Event::SyncSucceeded(unix_seconds)).1 == ClockLed4Effect::SetTime(
            unix_seconds,
        ),
{
}

/// A successful sync always leaves connecting and access-point setup for the time
/// display, and leaves the display and editing modes where they are; a failed sync
/// changes nothing; connecting that times out moves to access-point setup only.
pub proof fn sync_ends_setup(state: ClockLed4State, unix_seconds: UnixSeconds)
    ensures
        step_spec(state, ClockLed4Event::SyncSucceeded(unix_seconds)).0 != ClockLed4State::Connecting,
        step_spec(state, ClockLed4Event::SyncSucceeded(unix_seconds)).0 != ClockLed4State::AccessPointSetup,
        (state == ClockLed4State::Connecting || state == ClockLed4State::AccessPointSetup) ==> step_spec(
            state,
            ClockLed4Event::SyncSucceeded(unix_seconds),
        ).0 == ClockLed4State::HoursMinutes,
        (state != ClockLed4State::Connecting && state != ClockLed4State::AccessPointSetup) ==> step_spec(
            state,
            ClockLed4Event::SyncSucceeded(unix_seconds),
        ).0 == state,
        step_spec(state, ClockLed4Event::SyncFailed) == (state, ClockLed4Effect::Nothing),
        step_spec(state, ClockLed4Event::ConnectTimedOut).0 == if state == ClockLed4State::Connecting {
            ClockLed4State::AccessPointSetup
        } else {
            state
        },
{
}

} // verus!
