//! The four-digit clock: its time keeping, the state machine of its modes, and the
//! commands its device loop applies.

pub mod state;
pub mod time;

use vstd::prelude::*;

use crate::clock_led4::state::ClockLed4State;
use crate::clock_led4::time::{adjust_ok, offset_after_shift, offset_hours, wrap_offset_hours, ClockTime};
use crate::clock_time::{local_seconds_ok, now_ticks, time_of_day, TICK_HZ, TICKS_IN_ONE_DAY, ONE_MINUTE};
use crate::time_sync::UnixSeconds;

verus! {

/// Commands sent to the clock's device loop.
#[derive(Clone, Copy, Debug, PartialEq, Eq, Structural)]
pub enum ClockLed4Command {
    SetState(ClockLed4State),
    SetTimeFromUnix(UnixSeconds),
    /// Move the time of day forward by this many ticks.
    AdjustClockTime(u64),
    ResetSeconds,
    AdjustUtcOffsetHours(i32),
    SetUtcOffsetMinutes(i32),
}

/// The command can be applied without overflow: the timestamp's local time is
/// representable, and moving the offset keeps the clock's arithmetic in range.
pub open spec fn command_ok(command: ClockLed4Command, clock_time: ClockTime) -> bool {
    match command {
        ClockLed4Command::SetTimeFromUnix(unix_seconds) => local_seconds_ok(
            unix_seconds.0 as int,
            clock_time.utc_offset() as int,
        ),
        ClockLed4Command::AdjustUtcOffsetHours(hours) => adjust_ok(clock_time, hours),
        _ => true,
    }
}

/// `new_time` and `new_state` are what applying `command` at `now_ticks` to `clock_time`
/// and `clock_state` gives: the new mode; the time of day set to the timestamp's local
/// time; the time of day moved forward around the day; moved on to the next whole
/// minute; the UTC offset moved by whole hours within UTC−12 to UTC+14, the time of day
/// moving with it; or a new UTC offset recorded. Only a new mode changes the mode.
pub open spec fn command_applied(
    command: ClockLed4Command,
    clock_time: ClockTime,
    clock_state: ClockLed4State,
    new_time: ClockTime,
    new_state: ClockLed4State,
    now_ticks: u64,
) -> bool {
    match command {
        ClockLed4Command::SetState(state) => new_state == state && new_time == clock_time,
        ClockLed4Command::SetTimeFromUnix(unix_seconds) => new_state == clock_state && new_time.utc_offset()
            == clock_time.utc_offset() && time_of_day(now_ticks, new_time.offset_ticks())
            == crate::clock_time::local_seconds_of_day(unix_seconds.0 as int, clock_time.utc_offset() as int)
            * (TICK_HZ as int),
        ClockLed4Command::AdjustClockTime(delta) => new_state == clock_state && new_time.utc_offset()
            == clock_time.utc_offset() && new_time.offset_ticks() == (clock_time.offset_ticks()
            % TICKS_IN_ONE_DAY + delta % TICKS_IN_ONE_DAY) % (TICKS_IN_ONE_DAY as int),
        ClockLed4Command::ResetSeconds => {
            let advance = ONE_MINUTE - time_of_day(now_ticks, clock_time.offset_ticks()) % (ONE_MINUTE as int);
            &&& new_state == clock_state
            &&& new_time.utc_offset() == clock_time.utc_offset()
            &&& new_time.offset_ticks() == (clock_time.offset_ticks() % TICKS_IN_ONE_DAY + advance
                % (TICKS_IN_ONE_DAY as int)) % (TICKS_IN_ONE_DAY as int)
            &&& time_of_day(now_ticks, new_time.offset_ticks()) % (ONE_MINUTE as int) == 0
        },
        ClockLed4Command::AdjustUtcOffsetHours(hours) => {
            let current = offset_hours(clock_time.utc_offset() as int);
            let wrapped = wrap_offset_hours(current + hours);
            &&& new_state == clock_state
            &&& new_time.utc_offset() == wrapped * 60
            &&& new_time.offset_ticks() == offset_after_shift(clock_time.offset_ticks(), wrapped - current)
            &&& -12 <= wrapped <= 14
        },
        ClockLed4Command::SetUtcOffsetMinutes(minutes) => new_state == clock_state && new_time.utc_offset() == minutes
            && new_time.offset_ticks() == clock_time.offset_ticks(),
    }
}

impl ClockLed4Command {
    /// Applies the command at `now_ticks` ticks since boot: sets the mode, sets the time
    /// from a timestamp, moves the time of day forward, zeroes the seconds (by moving
    /// forward to the next whole minute), moves the UTC offset by whole hours (moving the
    /// time with it), or records a UTC offset.
    pub fn apply_at(self, clock_time: &mut ClockTime, clock_state: &mut ClockLed4State, now_ticks: u64)
        requires
            command_ok(self, *old(clock_time)),
        ensures
            command_applied(self, *old(clock_time), *old(clock_state), *final(clock_time), *final(clock_state), now_ticks),
    {
        match self {
            ClockLed4Command::SetTimeFromUnix(unix_seconds) => {
                clock_time.set_from_unix_at(unix_seconds, now_ticks);
            },
            ClockLed4Command::AdjustClockTime(delta) => {
                clock_time.add_assign(delta);
            },
            ClockLed4Command::SetState(new_clock_mode) => {
                *clock_state = new_clock_mode;
            },
            ClockLed4Command::ResetSeconds => {
                let now = clock_time.now_at(now_ticks);
                let sleep_duration = crate::clock_time::till_next(now, ONE_MINUTE);
                let ghost before = clock_time.offset_ticks();
                clock_time.add_assign(sleep_duration);
                proof {
                    lemma_advance_to_minute(now_ticks, before, sleep_duration);
                }
            },
            ClockLed4Command::AdjustUtcOffsetHours(hours) => {
                clock_time.adjust_utc_offset_hours(hours);
            },
            ClockLed4Command::SetUtcOffsetMinutes(minutes) => {
                clock_time.set_utc_offset_minutes(minutes);
            },
        }
    }

    /// Whether the command can be applied to `clock_time`; see [`command_ok`].
    pub fn can_apply(self, clock_time: &ClockTime) -> (ok: bool)
        ensures
            ok == command_ok(self, *clock_time),
    {
        match self {
            ClockLed4Command::SetTimeFromUnix(unix_seconds) => crate::clock_time::local_seconds_fit(
                unix_seconds.as_i64(),
                clock_time.utc_offset_minutes(),
            ),
            ClockLed4Command::AdjustUtcOffsetHours(hours) => clock_time.can_adjust_utc_offset_hours(hours),
            _ => true,
        }
    }

    /// Applies the command now.
    pub fn apply(self, clock_time: &mut ClockTime, clock_state: &mut ClockLed4State)
        requires
            command_ok(self, *old(clock_time)),
        ensures
            exists|t: u64| #[trigger] command_applied(self, *old(clock_time), *old(clock_state), *final(clock_time), *final(clock_state), t),
    {
        let now = now_ticks();
        self.apply_at(clock_time, clock_state, now);
    }
}

/// Moving the offset forward by the ticks left in the current minute lands the time of day
/// on a whole minute.
pub(crate) proof fn lemma_advance_to_minute(now_ticks: u64, offset: u64, advance: u64)
    requires
        advance == ONE_MINUTE - time_of_day(now_ticks, offset) % (ONE_MINUTE as int),
    ensures
        time_of_day(
            now_ticks,
            ((offset % TICKS_IN_ONE_DAY + advance % TICKS_IN_ONE_DAY) % (TICKS_IN_ONE_DAY as int)) as u64,
        ) % (ONE_MINUTE as int) == 0,
{
    let d = TICKS_IN_ONE_DAY as int;
    let m = ONE_MINUTE as int;
    let n = now_ticks as int;
    let o = offset as int;
    let t = time_of_day(now_ticks, offset);
    let new_offset = (o % d + advance as int % d) % d;
    assert(0 < advance <= m);
    vstd::arithmetic::div_mod::lemma_small_mod(advance as nat, d as nat);
    vstd::arithmetic::div_mod::lemma_mod_twice(n, d);
    vstd::arithmetic::div_mod::lemma_mod_twice(new_offset, d);
    vstd::arithmetic::div_mod::lemma_add_mod_noop(o, advance as int, d);
    vstd::arithmetic::div_mod::lemma_add_mod_noop(n, o, d);
    vstd::arithmetic::div_mod::lemma_add_mod_noop(n, new_offset, d);
    vstd::arithmetic::div_mod::lemma_add_mod_noop(n + o, advance as int, d);
    vstd::arithmetic::div_mod::lemma_small_mod(new_offset as nat, d as nat);
    assert(new_offset == (o + advance) % d);
    assert(t == (n + o) % d);
    assert(time_of_day(now_ticks, new_offset as u64) == (n + new_offset) % d);
    assert((n + new_offset) % d == (n + o + advance) % d) by {
        vstd::arithmetic::div_mod::lemma_add_mod_noop(n, o + advance, d);
    }
    assert((n + o + advance) % d == (t + advance) % d);
    // t + advance is the next multiple of a minute, at most one day.
    let q = t / m;
    vstd::arithmetic::div_mod::lemma_fundamental_div_mod(t, m);
    assert(t + advance == (q + 1) * m) by (nonlinear_arith)
        requires
            advance == m - t % m,
            t == m * q + t % m,
    ;
    assert(0 <= t < d);
    assert(d == 1440 * m);
    assert(q + 1 <= 1440) by (nonlinear_arith)
        requires
            t == m * q + t % m,
            0 <= t < 1440 * m,
            0 <= t % m,
            m > 0,
    ;
    assert(q >= 0) by (nonlinear_arith)
        requires
            t == m * q + t % m,
            0 <= t,
            t % m < m,
            m > 0,
    ;
    if q + 1 == 1440 {
        assert(t + advance == d);
        vstd::arithmetic::div_mod::lemma_mod_self_0(d);
    } else {
        assert(t + advance < d) by (nonlinear_arith)
            requires
                t + advance == (q + 1) * m,
                q + 1 < 1440,
                m > 0,
                d == 1440 * m,
        ;
        vstd::arithmetic::div_mod::lemma_small_mod((t + advance) as nat, d as nat);
    }
    vstd::arithmetic::div_mod::lemma_mod_multiples_basic(q + 1, m);
    assert(((q + 1) * m) % m == 0);
}

} // verus!
