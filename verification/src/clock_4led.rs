//! Commands applied by the device loop of the four-digit clock with stored settings.

use vstd::prelude::*;

use crate::clock_led4::time::{adjust_ok, offset_after_shift, offset_hours, wrap_offset_hours, ClockTime};
use crate::clock_time::{local_seconds_ok, now_ticks, time_of_day, TICK_HZ, TICKS_IN_ONE_DAY, ONE_MINUTE};
use crate::cwf::clock_state::ClockState as Clock4LedState;
use crate::time_sync::UnixSeconds;

verus! {

/// Commands sent to the clock's device loop.
#[derive(Clone, Copy, Debug, PartialEq, Eq, Structural)]
pub enum Clock4LedCommand {
    SetState(Clock4LedState),
    SetTimeFromUnix(UnixSeconds),
    /// Move the time of day forward by this many ticks.
    AdjustClockTime(u64),
    ResetSeconds,
    AdjustUtcOffsetHours(i32),
}

/// The command can be applied without overflow: the timestamp's local time is
/// representable, and moving the offset keeps the clock's arithmetic in range.
pub open spec fn clock_4led_command_ok(command: Clock4LedCommand, clock_time: ClockTime) -> bool {
    match command {
        Clock4LedCommand::SetTimeFromUnix(unix_seconds) => local_seconds_ok(
            unix_seconds.0 as int,
            clock_time.utc_offset() as int,
        ),
        Clock4LedCommand::AdjustUtcOffsetHours(hours) => adjust_ok(clock_time, hours),
        _ => true,
    }
}

/// `new_time` and `new_state` are what applying `command` at `now_ticks` to `clock_time`
/// and `clock_state` gives: the new mode; the time of day set to the timestamp's local
/// time; the time of day moved forward around the day; moved on to the next whole
/// minute; the UTC offset moved by whole hours within UTC−12 to UTC+14, the time of day
/// moving with it; or a new UTC offset recorded. Only a new mode changes the mode.
pub open spec fn clock_4led_command_applied(
    command: Clock4LedCommand,
    clock_time: ClockTime,
    clock_state: Clock4LedState,
    new_time: ClockTime,
    new_state: Clock4LedState,
    now_ticks: u64,
) -> bool {
    match command {
        Clock4LedCommand::SetState(state) => new_state == state && new_time == clock_time,
        Clock4LedCommand::SetTimeFromUnix(unix_seconds) => new_state == clock_state && new_time.utc_offset()
            == clock_time.utc_offset() && time_of_day(now_ticks, new_time.offset_ticks())
            == crate::clock_time::local_seconds_of_day(unix_seconds.0 as int, clock_time.utc_offset() as int)
            * (TICK_HZ as int),
        Clock4LedCommand::AdjustClockTime(delta) => new_state == clock_state && new_time.utc_offset()
            == clock_time.utc_offset() && new_time.offset_ticks() == (clock_time.offset_ticks()
            % TICKS_IN_ONE_DAY + delta % TICKS_IN_ONE_DAY) % (TICKS_IN_ONE_DAY as int),
        Clock4LedCommand::ResetSeconds => {
            let advance = ONE_MINUTE - time_of_day(now_ticks, clock_time.offset_ticks()) % (ONE_MINUTE as int);
            &&& new_state == clock_state
            &&& new_time.utc_offset() == clock_time.utc_offset()
            &&& new_time.offset_ticks() == (clock_time.offset_ticks() % TICKS_IN_ONE_DAY + advance
                % (TICKS_IN_ONE_DAY as int)) % (TICKS_IN_ONE_DAY as int)
            &&& time_of_day(now_ticks, new_time.offset_ticks()) % (ONE_MINUTE as int) == 0
        },
        Clock4LedCommand::AdjustUtcOffsetHours(hours) => {
            let current = offset_hours(clock_time.utc_offset() as int);
            let wrapped = wrap_offset_hours(current + hours);
            &&& new_state == clock_state
            &&& new_time.utc_offset() == wrapped * 60
            &&& new_time.offset_ticks() == offset_after_shift(clock_time.offset_ticks(), wrapped - current)
            &&& -12 <= wrapped <= 14
        },
    }
}

impl Clock4LedCommand {
    /// Applies the command at `now_ticks` ticks since boot: sets the mode, sets the time
    /// from a timestamp, moves the time of day forward, zeroes the seconds (by moving
    /// forward to the next whole minute), or moves the UTC offset by whole hours (moving
    /// the time with it).
    pub fn apply_at(self, clock_time: &mut ClockTime, clock_state: &mut Clock4LedState, now_ticks: u64)
        requires
            clock_4led_command_ok(self, *old(clock_time)),
        ensures
            clock_4led_command_applied(self, *old(clock_time), *old(clock_state), *final(clock_time), *final(clock_state), now_ticks),
    {
        match self {
            Clock4LedCommand::SetTimeFromUnix(unix_seconds) => {
                clock_time.set_from_unix_at(unix_seconds, now_ticks);
            },
            Clock4LedCommand::AdjustClockTime(delta) => {
                clock_time.add_assign(delta);
            },
            Clock4LedCommand::SetState(new_clock_mode) => {
                *clock_state = new_clock_mode;
            },
            Clock4LedCommand::ResetSeconds => {
                let now = clock_time.now_at(now_ticks);
                let sleep_duration = crate::clock_time::till_next(now, ONE_MINUTE);
                let ghost before = clock_time.offset_ticks();
                clock_time.add_assign(sleep_duration);
                proof {
                    crate::clock_led4::lemma_advance_to_minute(now_ticks, before, sleep_duration);
                }
            },
            Clock4LedCommand::AdjustUtcOffsetHours(hours) => {
                clock_time.adjust_utc_offset_hours(hours);
            },
        }
    }

    /// Whether the command can be applied to `clock_time`; see [`clock_4led_command_ok`].
    pub fn can_apply(self, clock_time: &ClockTime) -> (ok: bool)
        ensures
            ok == clock_4led_command_ok(self, *clock_time),
    {
        match self {
            Clock4LedCommand::SetTimeFromUnix(unix_seconds) => crate::clock_time::local_seconds_fit(
                unix_seconds.as_i64(),
                clock_time.utc_offset_minutes(),
            ),
            Clock4LedCommand::AdjustUtcOffsetHours(hours) => clock_time.can_adjust_utc_offset_hours(hours),
            _ => true,
        }
    }

    /// Applies the command now.
    pub fn apply(self, clock_time: &mut ClockTime, clock_state: &mut Clock4LedState)
        requires
            clock_4led_command_ok(self, *old(clock_time)),
        ensures
            exists|t: u64| #[trigger] clock_4led_command_applied(self, *old(clock_time), *old(clock_state), *final(clock_time), *final(clock_state), t),
    {
        let now = now_ticks();
        self.apply_at(clock_time, clock_state, now);
    }
}

} // verus!
