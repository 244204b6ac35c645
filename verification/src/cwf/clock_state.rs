//! Modes of the clock with Wi-Fi and stored settings: the time displays, editing the
//! UTC offset, and confirming that stored settings should be cleared.

use vstd::prelude::*;

use crate::button::PressDuration;
use crate::clock_led4::state::{
    connecting_frame, hours_minutes_chars, minutes_seconds_chars, ones_digit, tens_digit,
    tens_hours, CONNECTING_FRAME_DURATION, EDIT_BLINK_DURATION,
};
use crate::clock_led4::time::ClockTime;
use crate::clock_time::{h_m_s, h_m_s_of, now_ticks, time_of_day, ONE_MINUTE, ONE_SECOND, TICKS_IN_ONE_DAY};
use crate::cwf::blink_state::BlinkState;
use crate::time_sync::UnixSeconds;

verus! {

/// How long the clear-confirmation screens are shown between redraws, in ticks (400 ms).
pub const CONFIRM_CLEAR_DURATION: u64 = 400_000;

/// How long "DONE" is shown between redraws, in ticks (600 ms).
pub const CLEARING_DONE_DURATION: u64 = 600_000;

/// The answer selected on the clear-confirmation screen.
#[derive(Clone, Copy, Debug, PartialEq, Eq, Structural)]
pub enum ConfirmClearChoice {
    Keep,
    Clear,
}

impl ConfirmClearChoice {
    /// The other answer.
    pub fn toggle(self) -> (other: Self)
        ensures
            other != self,
    {
        match self {
            ConfirmClearChoice::Keep => ConfirmClearChoice::Clear,
            ConfirmClearChoice::Clear => ConfirmClearChoice::Keep,
        }
    }
}

/// The modes of the clock.
#[derive(Clone, Copy, Debug, PartialEq, Eq, Structural)]
pub enum ClockState {
    HoursMinutes,
    Connecting,
    MinutesSeconds,
    /// Editing the UTC offset; `modified` once it has been moved.
    EditUtcOffset { modified: bool },
    ConfirmClear(ConfirmClearChoice),
    ConfirmedClear,
    ClearingDone,
    AccessPointSetup,
}

/// What woke the clock's state machine.
#[derive(Clone, Copy, Debug, PartialEq, Eq, Structural)]
pub enum ClockEvent {
    /// A timed press of the button.
    Press(PressDuration),
    /// Time synchronisation read the network time.
    SyncSucceeded(UnixSeconds),
    /// Time synchronisation failed.
    SyncFailed,
    /// Nothing to wait for: the mode acts at once.
    Immediate,
}

/// What the clock does besides changing mode.
#[derive(Clone, Copy, Debug, PartialEq, Eq, Structural)]
pub enum ClockEffect {
    Nothing,
    /// Set the time from this timestamp.
    SetTime(UnixSeconds),
    /// Move the UTC offset forward by one hour.
    AdvanceUtcOffset,
}

/// The events each mode waits for.
pub open spec fn cwf_waits_for(state: ClockState, event: ClockEvent) -> bool {
    match state {
        ClockState::HoursMinutes | ClockState::MinutesSeconds => event is Press || event is SyncSucceeded
            || event is SyncFailed,
        ClockState::Connecting => event is SyncSucceeded || event is SyncFailed,
        ClockState::EditUtcOffset { .. } | ClockState::ConfirmClear(_) => event is Press,
        ClockState::ConfirmedClear | ClockState::ClearingDone | ClockState::AccessPointSetup => event
            is Immediate,
    }
}

/// The next mode and effect. The display modes toggle on short presses and enter offset
/// editing on long ones; a time sync sets the time and ends connecting. Each short press
/// while editing moves the offset an hour; a long press leaves editing, to the time
/// display if the offset was moved and to the clear confirmation (answer "keep") if not.
/// There short presses toggle the answer and a long press confirms it. Access-point setup
/// goes straight back to the time display; the clearing screens stay.
pub open spec fn cwf_step(state: ClockState, event: ClockEvent) -> (ClockState, ClockEffect) {
    match event {
        ClockEvent::Press(PressDuration::Short) => match state {
            ClockState::HoursMinutes => (ClockState::MinutesSeconds, ClockEffect::Nothing),
            ClockState::MinutesSeconds => (ClockState::HoursMinutes, ClockEffect::Nothing),
            ClockState::EditUtcOffset { .. } => (ClockState::EditUtcOffset { modified: true }, ClockEffect::AdvanceUtcOffset),
            ClockState::ConfirmClear(choice) => (
                ClockState::ConfirmClear(
                    match choice {
                        ConfirmClearChoice::Keep => ConfirmClearChoice::Clear,
                        ConfirmClearChoice::Clear => ConfirmClearChoice::Keep,
                    },
                ),
                ClockEffect::Nothing,
            ),
            _ => (state, ClockEffect::Nothing),
        },
        ClockEvent::Press(PressDuration::Long) => match state {
            ClockState::HoursMinutes | ClockState::MinutesSeconds => (
                ClockState::EditUtcOffset { modified: false },
                ClockEffect::Nothing,
            ),
            ClockState::EditUtcOffset { modified } => if modified {
                (ClockState::HoursMinutes, ClockEffect::Nothing)
            } else {
                (ClockState::ConfirmClear(ConfirmClearChoice::Keep), ClockEffect::Nothing)
            },
            ClockState::ConfirmClear(ConfirmClearChoice::Keep) => (ClockState::HoursMinutes, ClockEffect::Nothing),
            ClockState::ConfirmClear(ConfirmClearChoice::Clear) => (ClockState::ConfirmedClear, ClockEffect::Nothing),
            _ => (state, ClockEffect::Nothing),
        },
        ClockEvent::SyncSucceeded(unix_seconds) => match state {
            ClockState::Connecting => (ClockState::HoursMinutes, ClockEffect::SetTime(unix_seconds)),
            _ => (state, ClockEffect::SetTime(unix_seconds)),
        },
        ClockEvent::SyncFailed => (state, ClockEffect::Nothing),
        ClockEvent::Immediate => match state {
            ClockState::AccessPointSetup => (ClockState::HoursMinutes, ClockEffect::Nothing),
            _ => (state, ClockEffect::Nothing),
        },
    }
}

/// What each mode shows at time of day `time` ticks: blink state, characters, and how
/// long until the display needs redrawing.
pub open spec fn cwf_render(state: ClockState, time: int) -> (BlinkState, [char; 4], int) {
    match state {
        ClockState::HoursMinutes => (
            BlinkState::Solid,
            hours_minutes_chars(h_m_s(time).0, h_m_s(time).1),
            ONE_MINUTE - time % (ONE_MINUTE as int),
        ),
        ClockState::Connecting => (
            BlinkState::Solid,
            connecting_frame((time / (CONNECTING_FRAME_DURATION as int)) % 8),
            CONNECTING_FRAME_DURATION as int,
        ),
        ClockState::MinutesSeconds => (
            BlinkState::Solid,
            minutes_seconds_chars(h_m_s(time).1, h_m_s(time).2),
            ONE_SECOND - time % (ONE_SECOND as int),
        ),
        ClockState::EditUtcOffset { .. } => (
            BlinkState::BlinkingAndOn,
            hours_minutes_chars(h_m_s(time).0, h_m_s(time).1),
            EDIT_BLINK_DURATION as int,
        ),
        ClockState::ConfirmClear(ConfirmClearChoice::Keep) => (
            BlinkState::Solid,
            ['-', '-', '-', '-'],
            CONFIRM_CLEAR_DURATION as int,
        ),
        ClockState::ConfirmClear(ConfirmClearChoice::Clear) | ClockState::ConfirmedClear => (
            BlinkState::BlinkingAndOn,
            ['C', 'L', 'r', ' '],
            CONFIRM_CLEAR_DURATION as int,
        ),
        ClockState::ClearingDone => (BlinkState::Solid, ['D', 'O', 'N', 'E'], CLEARING_DONE_DURATION as int),
        ClockState::AccessPointSetup => (
            BlinkState::BlinkingAndOn,
            ['C', 'O', 'n', 'n'],
            EDIT_BLINK_DURATION as int,
        ),
    }
}

impl ClockState {
    /// The mode the clock starts in.
    pub fn default() -> (state: Self)
        ensures
            state == ClockState::HoursMinutes,
    {
        ClockState::HoursMinutes
    }

    /// The next mode and effect for an event the mode waits for; see [`cwf_step`].
    pub fn execute(self, event: ClockEvent) -> (next: (ClockState, ClockEffect))
        requires
            cwf_waits_for(self, event),
        ensures
            next == cwf_step(self, event),
    {
        match event {
            ClockEvent::Press(PressDuration::Short) => match self {
                ClockState::HoursMinutes => (ClockState::MinutesSeconds, ClockEffect::Nothing),
                ClockState::MinutesSeconds => (ClockState::HoursMinutes, ClockEffect::Nothing),
                ClockState::EditUtcOffset { .. } => (
                    ClockState::EditUtcOffset { modified: true },
                    ClockEffect::AdvanceUtcOffset,
                ),
                ClockState::ConfirmClear(choice) => (ClockState::ConfirmClear(choice.toggle()), ClockEffect::Nothing),
                _ => (self, ClockEffect::Nothing),
            },
            ClockEvent::Press(PressDuration::Long) => match self {
                ClockState::HoursMinutes | ClockState::MinutesSeconds => (
                    ClockState::EditUtcOffset { modified: false },
                    ClockEffect::Nothing,
                ),
                ClockState::EditUtcOffset { modified } => {
                    if modified {
                        (ClockState::HoursMinutes, ClockEffect::Nothing)
                    } else {
                        (ClockState::ConfirmClear(ConfirmClearChoice::Keep), ClockEffect::Nothing)
                    }
                },
                ClockState::ConfirmClear(ConfirmClearChoice::Keep) => (ClockState::HoursMinutes, ClockEffect::Nothing),
                ClockState::ConfirmClear(ConfirmClearChoice::Clear) => (
                    ClockState::ConfirmedClear,
                    ClockEffect::Nothing,
                ),
                _ => (self, ClockEffect::Nothing),
            },
            ClockEvent::SyncSucceeded(unix_seconds) => match self {
                ClockState::Connecting => (ClockState::HoursMinutes, ClockEffect::SetTime(unix_seconds)),
                _ => (self, ClockEffect::SetTime(unix_seconds)),
            },
            ClockEvent::SyncFailed => (self, ClockEffect::Nothing),
            ClockEvent::Immediate => match self {
                ClockState::AccessPointSetup => (ClockState::HoursMinutes, ClockEffect::Nothing),
                _ => (self, ClockEffect::Nothing),
            },
        }
    }

    /// What the mode shows at time of day `time` ticks; see [`cwf_render`].
    pub fn render_time(self, time: u64) -> (shown: (BlinkState, [char; 4], u64))
        requires
            time < TICKS_IN_ONE_DAY,
        ensures
            shown.0 == cwf_render(self, time as int).0,
            shown.1@ == cwf_render(self, time as int).1@,
            shown.2 == cwf_render(self, time as int).2,
    {
        match self {
            ClockState::HoursMinutes => {
                let (hours, minutes, _, sleep) = h_m_s_of(time, ONE_MINUTE);
                (BlinkState::Solid, [tens_hours(hours), ones_digit(hours), tens_digit(minutes), ones_digit(minutes)], sleep)
            },
            ClockState::Connecting => {
                let shown = crate::clock_led4::state::ClockLed4State::Connecting.render_time(time);
                (BlinkState::Solid, shown.1, CONNECTING_FRAME_DURATION)
            },
            ClockState::MinutesSeconds => {
                let (_, minutes, seconds, sleep) = h_m_s_of(time, ONE_SECOND);
                (BlinkState::Solid, [tens_digit(minutes), ones_digit(minutes), tens_digit(seconds), ones_digit(seconds)], sleep)
            },
            ClockState::EditUtcOffset { .. } => {
                let (hours, minutes, _, _) = h_m_s_of(time, ONE_MINUTE);
                (
                    BlinkState::BlinkingAndOn,
                    [tens_hours(hours), ones_digit(hours), tens_digit(minutes), ones_digit(minutes)],
                    EDIT_BLINK_DURATION,
                )
            },
            ClockState::ConfirmClear(ConfirmClearChoice::Keep) => (
                BlinkState::Solid,
                ['-', '-', '-', '-'],
                CONFIRM_CLEAR_DURATION,
            ),
            ClockState::ConfirmClear(ConfirmClearChoice::Clear) | ClockState::ConfirmedClear => (
                BlinkState::BlinkingAndOn,
                ['C', 'L', 'r', ' '],
                CONFIRM_CLEAR_DURATION,
            ),
            ClockState::ClearingDone => (BlinkState::Solid, ['D', 'O', 'N', 'E'], CLEARING_DONE_DURATION),
            ClockState::AccessPointSetup => (
                BlinkState::BlinkingAndOn,
                ['C', 'O', 'n', 'n'],
                EDIT_BLINK_DURATION,
            ),
        }
    }

    /// What the mode shows at `now_ticks` ticks since boot.
    pub fn render_at(self, clock_time: &ClockTime, now_ticks: u64) -> (shown: (BlinkState, [char; 4], u64))
        ensures
            shown.0 == cwf_render(self, time_of_day(now_ticks, clock_time.offset_ticks())).0,
            shown.1@ == cwf_render(self, time_of_day(now_ticks, clock_time.offset_ticks())).1@,
            shown.2 == cwf_render(self, time_of_day(now_ticks, clock_time.offset_ticks())).2,
    {
        self.render_time(clock_time.now_at(now_ticks))
    }

    /// What the mode shows now.
    pub fn render(self, clock_time: &ClockTime) -> (shown: (BlinkState, [char; 4], u64))
        ensures
            (exists|t: u64|
                {
                    let shown_then = cwf_render(self, #[trigger] time_of_day(t, clock_time.offset_ticks()));
                    shown.0 == shown_then.0 && shown.1@ == shown_then.1@ && shown.2 == shown_then.2
                }),
    {
        let now = now_ticks();
        let shown = self.render_at(clock_time, now);
        assert(shown.2 == cwf_render(self, time_of_day(now, clock_time.offset_ticks())).2);
        shown
    }
}

/// Stored settings are cleared only through an explicit confirmation: the only way into
/// `ConfirmedClear` is a long press while "clear" is selected, and the confirmation is
/// reached only by leaving offset editing without changing the offset, with "keep"
/// selected.
pub proof fn clearing_needs_confirmation(state: ClockState, event: ClockEvent)
    requires
        cwf_step(state, event).0 == ClockState::ConfirmedClear,
        state != ClockState::ConfirmedClear,
    ensures
        state == ClockState::ConfirmClear(ConfirmClearChoice::Clear),
        event == ClockEvent::Press(PressDuration::Long),
{
}

/// Entering the confirmation always starts on "keep".
pub proof fn confirmation_starts_on_keep(state: ClockState, event: ClockEvent)
    requires
        cwf_step(state, event).0 is ConfirmClear,
        !(state is ConfirmClear),
    ensures
        cwf_step(state, event).0 == ClockState::ConfirmClear(ConfirmClearChoice::Keep),
        state == (ClockState::EditUtcOffset { modified: false }),
{
}

} // verus!
