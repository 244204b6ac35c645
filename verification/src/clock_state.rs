//! Modes of the set-by-hand clock: showing the time, and stepping through seconds,
//! minutes and hours to set them with a single button.

use vstd::prelude::*;

use crate::blinkable_display::BlinkMode;
use crate::button::PressDuration;
use crate::clock_led4::state::{digit_char, ones_digit, tens_digit, tens_hours};
use crate::clock_time::{h_m_s, h_m_s_of, now_ticks, time_of_day, ClockTime, ONE_DAY, ONE_HOUR, ONE_MINUTE, ONE_SECOND, TICKS_IN_ONE_DAY};

verus! {

/// The modes of the clock.
#[derive(Clone, Copy, Debug, PartialEq, Eq, Structural)]
pub enum ClockState {
    HoursMinutes,
    MinutesSeconds,
    ShowSeconds,
    EditSeconds,
    ShowMinutes,
    EditMinutes,
    ShowHours,
    EditHours,
}

/// What woke the clock's state machine.
#[derive(Clone, Copy, Debug, PartialEq, Eq, Structural)]
pub enum ClockEvent {
    /// A timed press of the button.
    Press(PressDuration),
    /// The button went down (while editing).
    ButtonDown,
    /// The editing repeat timer ran out.
    EditTick,
}

/// What the clock does besides changing mode.
#[derive(Clone, Copy, Debug, PartialEq, Eq, Structural)]
pub enum ClockEffect {
    Nothing,
    /// Set the seconds to zero.
    ResetSeconds,
    /// Move the time forward by this many ticks.
    AdjustOffset(u64),
}

/// The events each mode waits for: editing seconds waits for the button to go down,
/// editing minutes or hours for the button or the repeat timer, the others for a timed
/// press.
pub open spec fn clock_waits_for(state: ClockState, event: ClockEvent) -> bool {
    match state {
        ClockState::EditSeconds => event is ButtonDown,
        ClockState::EditMinutes | ClockState::EditHours => event is ButtonDown || event is EditTick,
        _ => event is Press,
    }
}

/// The next mode and effect. Short presses cycle hours-minutes ↔ minutes-seconds and,
/// in setting, seconds → minutes → hours → hours-minutes; a long press goes from the
/// display modes to showing seconds, and from showing a field to editing it. Editing
/// seconds zeroes them at the next press; editing minutes or hours advances them on
/// every repeat until the button goes down, then shows the field again.
pub open spec fn clock_step(state: ClockState, event: ClockEvent) -> (ClockState, ClockEffect) {
    match (state, event) {
        (ClockState::HoursMinutes, ClockEvent::Press(PressDuration::Short)) => (ClockState::MinutesSeconds, ClockEffect::Nothing),
        (ClockState::HoursMinutes, ClockEvent::Press(PressDuration::Long)) => (ClockState::ShowSeconds, ClockEffect::Nothing),
        (ClockState::MinutesSeconds, ClockEvent::Press(PressDuration::Short)) => (ClockState::HoursMinutes, ClockEffect::Nothing),
        (ClockState::MinutesSeconds, ClockEvent::Press(PressDuration::Long)) => (ClockState::ShowSeconds, ClockEffect::Nothing),
        (ClockState::ShowSeconds, ClockEvent::Press(PressDuration::Short)) => (ClockState::ShowMinutes, ClockEffect::Nothing),
        (ClockState::ShowSeconds, ClockEvent::Press(PressDuration::Long)) => (ClockState::EditSeconds, ClockEffect::Nothing),
        (ClockState::EditSeconds, ClockEvent::ButtonDown) => (ClockState::ShowSeconds, ClockEffect::ResetSeconds),
        (ClockState::ShowMinutes, ClockEvent::Press(PressDuration::Short)) => (ClockState::ShowHours, ClockEffect::Nothing),
        (ClockState::ShowMinutes, ClockEvent::Press(PressDuration::Long)) => (ClockState::EditMinutes, ClockEffect::Nothing),
        (ClockState::EditMinutes, ClockEvent::ButtonDown) => (ClockState::ShowMinutes, ClockEffect::Nothing),
        (ClockState::EditMinutes, ClockEvent::EditTick) => (ClockState::EditMinutes, ClockEffect::AdjustOffset(ONE_MINUTE)),
        (ClockState::ShowHours, ClockEvent::Press(PressDuration::Short)) => (ClockState::HoursMinutes, ClockEffect::Nothing),
        (ClockState::ShowHours, ClockEvent::Press(PressDuration::Long)) => (ClockState::EditHours, ClockEffect::Nothing),
        (ClockState::EditHours, ClockEvent::ButtonDown) => (ClockState::ShowHours, ClockEffect::Nothing),
        (ClockState::EditHours, ClockEvent::EditTick) => (ClockState::EditHours, ClockEffect::AdjustOffset(ONE_HOUR)),
        _ => (state, ClockEffect::Nothing),
    }
}

/// What each mode shows at time of day `time` ticks: characters, blink mode, and how long
/// until the display needs redrawing.
pub open spec fn clock_render(state: ClockState, time: int) -> ([char; 4], BlinkMode, int) {
    let (hours, minutes, seconds) = h_m_s(time);
    let hour_chars = |b: BlinkMode| (
        [if hours >= 10 { '1' } else { ' ' }, digit_char(hours % 10), ' ', ' '],
        b,
        ONE_HOUR - time % (ONE_HOUR as int),
    );
    let minute_chars = |b: BlinkMode| (
        [' ', ' ', digit_char(minutes / 10), digit_char(minutes % 10)],
        b,
        ONE_MINUTE - time % (ONE_MINUTE as int),
    );
    match state {
        ClockState::HoursMinutes => (
            [if hours >= 10 { '1' } else { ' ' }, digit_char(hours % 10), digit_char(minutes / 10), digit_char(minutes % 10)],
            BlinkMode::Solid,
            ONE_MINUTE - time % (ONE_MINUTE as int),
        ),
        ClockState::MinutesSeconds => (
            [digit_char(minutes / 10), digit_char(minutes % 10), digit_char(seconds / 10), digit_char(seconds % 10)],
            BlinkMode::Solid,
            ONE_SECOND - time % (ONE_SECOND as int),
        ),
        ClockState::ShowSeconds => (
            [' ', digit_char(seconds / 10), digit_char(seconds % 10), ' '],
            BlinkMode::BlinkingAndOn,
            ONE_SECOND - time % (ONE_SECOND as int),
        ),
        ClockState::EditSeconds => ([' ', '0', '0', ' '], BlinkMode::Solid, ONE_DAY as int),
        ClockState::ShowMinutes => minute_chars(BlinkMode::BlinkingAndOn),
        ClockState::EditMinutes => minute_chars(BlinkMode::Solid),
        ClockState::ShowHours => hour_chars(BlinkMode::BlinkingAndOn),
        ClockState::EditHours => hour_chars(BlinkMode::Solid),
    }
}

impl ClockState {
    /// The mode the clock starts in.
    pub fn default() -> (state: Self)
        ensures
            state == ClockState::HoursMinutes,
    {
        ClockState::HoursMinutes
    }

    /// The next mode and effect for an event the mode waits for; see [`clock_step`].
    pub fn run_and_next(self, event: ClockEvent) -> (next: (ClockState, ClockEffect))
        requires
            clock_waits_for(self, event),
        ensures
            next == clock_step(self, event),
    {
        match (self, event) {
            (ClockState::HoursMinutes, ClockEvent::Press(PressDuration::Short)) => (ClockState::MinutesSeconds, ClockEffect::Nothing),
            (ClockState::HoursMinutes, ClockEvent::Press(PressDuration::Long)) => (ClockState::ShowSeconds, ClockEffect::Nothing),
            (ClockState::MinutesSeconds, ClockEvent::Press(PressDuration::Short)) => (ClockState::HoursMinutes, ClockEffect::Nothing),
            (ClockState::MinutesSeconds, ClockEvent::Press(PressDuration::Long)) => (ClockState::ShowSeconds, ClockEffect::Nothing),
            (ClockState::ShowSeconds, ClockEvent::Press(PressDuration::Short)) => (ClockState::ShowMinutes, ClockEffect::Nothing),
            (ClockState::ShowSeconds, ClockEvent::Press(PressDuration::Long)) => (ClockState::EditSeconds, ClockEffect::Nothing),
            (ClockState::EditSeconds, ClockEvent::ButtonDown) => (ClockState::ShowSeconds, ClockEffect::ResetSeconds),
            (ClockState::ShowMinutes, ClockEvent::Press(PressDuration::Short)) => (ClockState::ShowHours, ClockEffect::Nothing),
            (ClockState::ShowMinutes, ClockEvent::Press(PressDuration::Long)) => (ClockState::EditMinutes, ClockEffect::Nothing),
            (ClockState::EditMinutes, ClockEvent::ButtonDown) => (ClockState::ShowMinutes, ClockEffect::Nothing),
            (ClockState::EditMinutes, ClockEvent::EditTick) => (ClockState::EditMinutes, ClockEffect::AdjustOffset(ONE_MINUTE)),
            (ClockState::ShowHours, ClockEvent::Press(PressDuration::Short)) => (ClockState::HoursMinutes, ClockEffect::Nothing),
            (ClockState::ShowHours, ClockEvent::Press(PressDuration::Long)) => (ClockState::EditHours, ClockEffect::Nothing),
            (ClockState::EditHours, ClockEvent::ButtonDown) => (ClockState::ShowHours, ClockEffect::Nothing),
            (ClockState::EditHours, ClockEvent::EditTick) => (ClockState::EditHours, ClockEffect::AdjustOffset(ONE_HOUR)),
            _ => (self, ClockEffect::Nothing),
        }
    }

    /// What the mode shows at time of day `time` ticks; see [`clock_render`].
    pub fn render_time(self, time: u64) -> (shown: ([char; 4], BlinkMode, u64))
        requires
            time < TICKS_IN_ONE_DAY,
        ensures
            shown.0@ == clock_render(self, time as int).0@,
            shown.1 == clock_render(self, time as int).1,
            shown.2 == clock_render(self, time as int).2,
    {
        match self {
            ClockState::HoursMinutes => {
                let (hours, minutes, _, sleep) = h_m_s_of(time, ONE_MINUTE);
                ([tens_hours(hours), ones_digit(hours), tens_digit(minutes), ones_digit(minutes)], BlinkMode::Solid, sleep)
            },
            ClockState::MinutesSeconds => {
                let (_, minutes, seconds, sleep) = h_m_s_of(time, ONE_SECOND);
                ([tens_digit(minutes), ones_digit(minutes), tens_digit(seconds), ones_digit(seconds)], BlinkMode::Solid, sleep)
            },
            ClockState::ShowSeconds => {
                let (_, _, seconds, sleep) = h_m_s_of(time, ONE_SECOND);
                ([' ', tens_digit(seconds), ones_digit(seconds), ' '], BlinkMode::BlinkingAndOn, sleep)
            },
            ClockState::EditSeconds => ([' ', '0', '0', ' '], BlinkMode::Solid, ONE_DAY),
            ClockState::ShowMinutes => {
                let (_, minutes, _, sleep) = h_m_s_of(time, ONE_MINUTE);
                ([' ', ' ', tens_digit(minutes), ones_digit(minutes)], BlinkMode::BlinkingAndOn, sleep)
            },
            ClockState::EditMinutes => {
                let (_, minutes, _, sleep) = h_m_s_of(time, ONE_MINUTE);
                ([' ', ' ', tens_digit(minutes), ones_digit(minutes)], BlinkMode::Solid, sleep)
            },
            ClockState::ShowHours => {
                let (hours, _, _, sleep) = h_m_s_of(time, ONE_HOUR);
                ([tens_hours(hours), ones_digit(hours), ' ', ' '], BlinkMode::BlinkingAndOn, sleep)
            },
            ClockState::EditHours => {
                let (hours, _, _, sleep) = h_m_s_of(time, ONE_HOUR);
                ([tens_hours(hours), ones_digit(hours), ' ', ' '], BlinkMode::Solid, sleep)
            },
        }
    }

    /// What the mode shows at `now_ticks` ticks since boot.
    pub fn render_at(self, clock_time: &ClockTime, now_ticks: u64) -> (shown: ([char; 4], BlinkMode, u64))
        ensures
            shown.0@ == clock_render(self, time_of_day(now_ticks, clock_time.offset_ticks())).0@,
            shown.1 == clock_render(self, time_of_day(now_ticks, clock_time.offset_ticks())).1,
            shown.2 == clock_render(self, time_of_day(now_ticks, clock_time.offset_ticks())).2,
    {
        self.render_time(clock_time.now_at(now_ticks))
    }

    /// What the mode shows now.
    pub fn render(self, clock_time: &ClockTime) -> (shown: ([char; 4], BlinkMode, u64))
        ensures
            (exists|t: u64|
                {
                    let shown_then = clock_render(self, #[trigger] time_of_day(t, clock_time.offset_ticks()));
                    shown.0@ == shown_then.0@ && shown.1 == shown_then.1 && shown.2 == shown_then.2
                }),
    {
        let now = now_ticks();
        let shown = self.render_at(clock_time, now);
        assert(shown.2 == clock_render(self, time_of_day(now, clock_time.offset_ticks())).2);
        shown
    }
}

/// Setting the clock walks seconds → minutes → hours → back to the time display with
/// short presses, and a long press on a shown field always starts editing that field.
pub proof fn setting_cycle()
    ensures
        clock_step(ClockState::ShowSeconds, ClockEvent::Press(PressDuration::Short)).0 == ClockState::ShowMinutes,
        clock_step(ClockState::ShowMinutes, ClockEvent::Press(PressDuration::Short)).0 == ClockState::ShowHours,
        clock_step(ClockState::ShowHours, ClockEvent::Press(PressDuration::Short)).0 == ClockState::HoursMinutes,
        clock_step(ClockState::ShowSeconds, ClockEvent::Press(PressDuration::Long)).0 == ClockState::EditSeconds,
        clock_step(ClockState::ShowMinutes, ClockEvent::Press(PressDuration::Long)).0 == ClockState::EditMinutes,
        clock_step(ClockState::ShowHours, ClockEvent::Press(PressDuration::Long)).0 == ClockState::EditHours,
{
}

/// Editing a field stays in that field until the button goes down, and then returns to
/// showing it.
pub proof fn editing_returns_to_showing(state: ClockState)
    requires
        state == ClockState::EditSeconds || state == ClockState::EditMinutes || state == ClockState::EditHours,
    ensures
        clock_step(state, ClockEvent::ButtonDown).0 == match state {
            ClockState::EditSeconds => ClockState::ShowSeconds,
            ClockState::EditMinutes => ClockState::ShowMinutes,
            _ => ClockState::ShowHours,
        },
        state != ClockState::EditSeconds ==> clock_step(state, ClockEvent::EditTick).0 == state,
        clock_step(ClockState::EditSeconds, ClockEvent::ButtonDown).1 == ClockEffect::ResetSeconds,
        clock_step(ClockState::EditMinutes, ClockEvent::ButtonDown).1 == ClockEffect::Nothing,
        clock_step(ClockState::EditHours, ClockEvent::ButtonDown).1 == ClockEffect::Nothing,
        clock_step(ClockState::EditMinutes, ClockEvent::EditTick).1 == ClockEffect::AdjustOffset(ONE_MINUTE),
        clock_step(ClockState::EditHours, ClockEvent::EditTick).1 == ClockEffect::AdjustOffset(ONE_HOUR),
{
}

/// A short press on a display mode switches to the other display mode and changes
/// nothing else, so two short presses come back; a long press on either starts setting
/// with the seconds shown.
pub proof fn display_modes_toggle(state: ClockState)
    requires
        state == ClockState::HoursMinutes || state == ClockState::MinutesSeconds,
    ensures
        clock_step(state, ClockEvent::Press(PressDuration::Short)).0 != state,
        clock_step(state, ClockEvent::Press(PressDuration::Short)).0 == ClockState::HoursMinutes || clock_step(
            state,
            ClockEvent::Press(PressDuration::Short),
        ).0 == ClockState::MinutesSeconds,
        clock_step(state, ClockEvent::Press(PressDuration::Short)).1 == ClockEffect::Nothing,
        clock_step(
            clock_step(state, ClockEvent::Press(PressDuration::Short)).0,
            ClockEvent::Press(PressDuration::Short),
        ).0 == state,
        clock_step(state, ClockEvent::Press(PressDuration::Long)) == (ClockState::ShowSeconds, ClockEffect::Nothing),
{
}

} // verus!
