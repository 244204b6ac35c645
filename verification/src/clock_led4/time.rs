//! Time keeping for the four-digit clock: time of day as an offset from the system
//! timer, and a UTC offset in minutes that is mirrored where other tasks can read it.

use vstd::prelude::*;

use core::sync::atomic::AtomicI32;
use core::sync::atomic::Ordering;

use crate::clock_time::{
    h_m_s, h_m_s_of, local_seconds_of_day, local_seconds_ok, now_ticks, time_of_day, ONE_HOUR, TICK_HZ,
    TICKS_IN_ONE_DAY,
};
use crate::time_sync::UnixSeconds;

verus! {

/// Publishes the UTC offset to the tasks that read the mirror.
fn publish_offset(mirror: &AtomicI32, minutes: i32) {
    mirror.store(minutes, Ordering::Relaxed);
}

/// Whole hours of a UTC offset in minutes, rounded half away from zero.
pub open spec fn offset_hours(minutes: int) -> int {
    if minutes >= 0 {
        (minutes + 30) / 60
    } else {
        -((30 - minutes) / 60)
    }
}

/// Offsets in hours wrap around within -12 to +14.
pub open spec fn wrap_offset_hours(hours: int) -> int {
    (hours + 12) % 27 - 12
}

/// Moving the UTC offset of `clock` by `hours` stays within `i32`: the offset rounds to
/// whole hours without overflow, and the sum of hours (with the wrap's shift) fits.
pub open spec fn adjust_ok(clock: ClockTime, hours: i32) -> bool {
    let current = offset_hours(clock.utc_offset() as int);
    &&& i32::MIN + 30 <= clock.utc_offset() <= i32::MAX - 30
    &&& i32::MIN <= current + hours
    &&& current + hours + 12 <= i32::MAX
}

/// The timer offset after moving the time of day by `delta_hours` hours, around the day.
pub open spec fn offset_after_shift(offset: u64, delta_hours: int) -> int {
    (offset % TICKS_IN_ONE_DAY + (delta_hours % 24) * ONE_HOUR) % (TICKS_IN_ONE_DAY as int)
}

/// Moving the offset by `delta_hours` moves every time of day by that many hours, around
/// the day.
proof fn lemma_shift_moves_time(t: u64, offset: u64, delta_hours: int)
    ensures
        0 <= offset_after_shift(offset, delta_hours) < TICKS_IN_ONE_DAY,
        time_of_day(t, offset_after_shift(offset, delta_hours) as u64) == (time_of_day(t, offset) + (
        delta_hours % 24) * ONE_HOUR) % (TICKS_IN_ONE_DAY as int),
{
    let d = TICKS_IN_ONE_DAY as int;
    let a = t % TICKS_IN_ONE_DAY;
    let b = offset % TICKS_IN_ONE_DAY;
    let s = (delta_hours % 24) * ONE_HOUR;
    let n = offset_after_shift(offset, delta_hours);
    assert(0 <= n < d);
    assert((n as u64) % TICKS_IN_ONE_DAY == n);
    vstd::arithmetic::div_mod::lemma_add_mod_noop_right(a as int, b + s, d);
    vstd::arithmetic::div_mod::lemma_add_mod_noop(a + b, s, d);
    vstd::arithmetic::div_mod::lemma_small_mod(a as nat, d as nat);
    vstd::arithmetic::div_mod::lemma_mod_twice(a + b, d);
    assert((a + (b + s) % d) % d == (a + b + s) % d);
    assert(((a + b) % d + s) % d == (a + b + s) % d) by {
        vstd::arithmetic::div_mod::lemma_add_mod_noop(a + b, s, d);
        vstd::arithmetic::div_mod::lemma_mod_bound(s, d);
        vstd::arithmetic::div_mod::lemma_small_mod(s as nat, d as nat);
    }
}

/// The clock's time keeping: an offset from the system timer and the UTC offset.
pub struct ClockTime {
    offset: u64,
    utc_offset_minutes: i32,
    utc_offset_mirror: &'static AtomicI32,
}

impl ClockTime {
    /// The offset added to the system timer, in ticks.
    pub closed spec fn offset_ticks(&self) -> u64 {
        self.offset
    }

    /// The UTC offset, in minutes.
    pub closed spec fn utc_offset(&self) -> i32 {
        self.utc_offset_minutes
    }

    /// A clock at the given UTC offset whose time of day starts at noon plus the time
    /// since boot. The offset is published to `utc_offset_mirror`.
    pub fn new(initial_utc_offset_minutes: i32, utc_offset_mirror: &'static AtomicI32) -> (clock: Self)
        ensures
            clock.offset_ticks() == 43_200_000_000,
            clock.utc_offset() == initial_utc_offset_minutes,
    {
        publish_offset(utc_offset_mirror, initial_utc_offset_minutes);
        Self { offset: 43_200_000_000, utc_offset_minutes: initial_utc_offset_minutes, utc_offset_mirror }
    }

    /// The UTC offset in minutes.
    pub fn utc_offset_minutes(&self) -> (minutes: i32)
        ensures
            minutes == self.utc_offset(),
    {
        self.utc_offset_minutes
    }

    /// Records a new UTC offset (and publishes it) without moving the time of day.
    pub fn set_utc_offset_minutes(&mut self, minutes: i32)
        ensures
            final(self).utc_offset() == minutes,
            final(self).offset_ticks() == old(self).offset_ticks(),
    {
        self.utc_offset_minutes = minutes;
        publish_offset(self.utc_offset_mirror, minutes);
    }

    /// Sets the clock so that, at `now_ticks` ticks since boot, the time of day is the
    /// local time of `unix_seconds`.
    pub fn set_from_unix_at(&mut self, unix_seconds: UnixSeconds, now_ticks: u64)
        requires
            local_seconds_ok(unix_seconds.0 as int, old(self).utc_offset() as int),
        ensures
            final(self).utc_offset() == old(self).utc_offset(),
            final(self).offset_ticks() < TICKS_IN_ONE_DAY,
            time_of_day(now_ticks, final(self).offset_ticks()) == local_seconds_of_day(
                unix_seconds.0 as int,
                old(self).utc_offset() as int,
            ) * (TICK_HZ as int),
    {
        let mut clock = crate::clock_time::ClockTime::new(self.utc_offset_minutes);
        clock.set_from_unix_at(unix_seconds, now_ticks);
        self.offset = clock.offset_in_ticks();
    }

    /// Synchronizes the clock to a Unix timestamp read now.
    pub fn set_from_unix(&mut self, unix_seconds: UnixSeconds)
        requires
            local_seconds_ok(unix_seconds.0 as int, old(self).utc_offset() as int),
        ensures
            final(self).utc_offset() == old(self).utc_offset(),
            final(self).offset_ticks() < TICKS_IN_ONE_DAY,
            exists|t: u64|
                #[trigger] time_of_day(t, final(self).offset_ticks()) == local_seconds_of_day(
                    unix_seconds.0 as int,
                    old(self).utc_offset() as int,
                ) * (TICK_HZ as int),
    {
        let now = now_ticks();
        self.set_from_unix_at(unix_seconds, now);
        assert(time_of_day(now, self.offset_ticks()) == local_seconds_of_day(
            unix_seconds.0 as int,
            old(self).utc_offset() as int,
        ) * (TICK_HZ as int));
    }

    /// Time of day, in ticks, at `now_ticks` ticks since boot.
    pub fn now_at(&self, now_ticks: u64) -> (ticks: u64)
        ensures
            ticks == time_of_day(now_ticks, self.offset_ticks()),
            ticks < TICKS_IN_ONE_DAY,
    {
        let ticks = now_ticks % TICKS_IN_ONE_DAY + self.offset % TICKS_IN_ONE_DAY;
        ticks % TICKS_IN_ONE_DAY
    }

    /// Time of day now, in ticks.
    pub fn now(&self) -> (ticks: u64)
        ensures
            ticks < TICKS_IN_ONE_DAY,
            exists|t: u64| ticks == #[trigger] time_of_day(t, self.offset_ticks()),
    {
        let now = now_ticks();
        self.now_at(now)
    }

    /// Hour (1 to 12), minute and second at `now_ticks` ticks since boot, and the ticks
    /// until the next multiple of `unit`.
    pub fn h_m_s_sleep_duration_at(&self, now_ticks: u64, unit: u64) -> (result: (u8, u8, u8, u64))
        requires
            unit > 0,
        ensures
            (result.0 as int, result.1 as int, result.2 as int) == h_m_s(
                time_of_day(now_ticks, self.offset_ticks()),
            ),
            result.3 == unit - time_of_day(now_ticks, self.offset_ticks()) % (unit as int),
    {
        let now = self.now_at(now_ticks);
        h_m_s_of(now, unit)
    }

    /// Hour (1 to 12), minute and second now, and the ticks until the next multiple of
    /// `unit`.
    pub fn h_m_s_sleep_duration(&self, unit: u64) -> (result: (u8, u8, u8, u64))
        requires
            unit > 0,
        ensures
            1 <= result.0 <= 12,
            result.1 < 60,
            result.2 < 60,
            0 < result.3 <= unit,
            exists|t: u64|
                (result.0 as int, result.1 as int, result.2 as int) == h_m_s(
                    #[trigger] time_of_day(t, self.offset_ticks()),
                ) && result.3 == unit - time_of_day(t, self.offset_ticks()) % (unit as int),
    {
        let now = now_ticks();
        let time = self.now_at(now);
        let result = h_m_s_of(time, unit);
        assert(time == time_of_day(now, self.offset_ticks()));
        result
    }

    /// The UTC offset in whole hours, rounded half away from zero.
    pub fn utc_offset_hours(&self) -> (hours: i32)
        requires
            i32::MIN + 30 <= self.utc_offset() <= i32::MAX - 30,
        ensures
            hours == offset_hours(self.utc_offset() as int),
    {
        if self.utc_offset_minutes >= 0 {
            (self.utc_offset_minutes + 30) / 60
        } else {
            (self.utc_offset_minutes - 30) / 60
        }
    }

    /// Moves the UTC offset by `hours`, wrapping around within -12 to +14 hours, and moves
    /// the time of day by the same amount. The new offset is a whole number of hours and
    /// is published.
    pub fn adjust_utc_offset_hours(&mut self, hours: i32)
        requires
            adjust_ok(*old(self), hours),
        ensures
            final(self).utc_offset() == wrap_offset_hours(
                offset_hours(old(self).utc_offset() as int) + hours,
            ) * 60,
            final(self).offset_ticks() == offset_after_shift(
                old(self).offset_ticks(),
                wrap_offset_hours(offset_hours(old(self).utc_offset() as int) + hours) - offset_hours(
                    old(self).utc_offset() as int,
                ),
            ),
            forall|t: u64|
                #[trigger] time_of_day(t, final(self).offset_ticks()) == (time_of_day(t, old(self).offset_ticks())
                    + ((wrap_offset_hours(offset_hours(old(self).utc_offset() as int) + hours)
                    - offset_hours(old(self).utc_offset() as int)) % 24) * ONE_HOUR) % (TICKS_IN_ONE_DAY as int),
            -12 <= offset_hours(final(self).utc_offset() as int) <= 14,
            offset_hours(final(self).utc_offset() as int) == wrap_offset_hours(
                offset_hours(old(self).utc_offset() as int) + hours,
            ),
    {
        let current_offset_hours = self.utc_offset_hours();
        let new_offset_hours = current_offset_hours + hours;
        let wrapped = ((new_offset_hours + 12) % 27 + 27) % 27 - 12;
        assert(wrapped == wrap_offset_hours(new_offset_hours as int)) by {
            let x = (new_offset_hours + 12) as int;
            assert(((x % 27) + 27) % 27 == x % 27) by (nonlinear_arith);
        }
        let delta_hours = wrapped - current_offset_hours;
        let shift_hours = (delta_hours % 24 + 24) % 24;
        assert(shift_hours == (delta_hours as int) % 24) by {
            let x = delta_hours as int;
            assert(((x % 24) + 24) % 24 == x % 24) by (nonlinear_arith);
        }
        let ghost old_offset = self.offset;
        self.offset = (self.offset % TICKS_IN_ONE_DAY + (shift_hours as u64) * 3_600_000_000) % TICKS_IN_ONE_DAY;
        self.utc_offset_minutes = wrapped * 60;
        publish_offset(self.utc_offset_mirror, self.utc_offset_minutes);
        proof {
            assert forall|t: u64| #[trigger] time_of_day(t, self.offset) == (time_of_day(t, old_offset) + (
            (delta_hours as int) % 24) * ONE_HOUR) % (TICKS_IN_ONE_DAY as int) by {
                lemma_shift_moves_time(t, old_offset, delta_hours as int);
            }
        }
    }

    /// Whether [`adjust_utc_offset_hours`](ClockTime::adjust_utc_offset_hours) can move
    /// the offset by `hours`; see [`adjust_ok`].
    pub fn can_adjust_utc_offset_hours(&self, hours: i32) -> (ok: bool)
        ensures
            ok == adjust_ok(*self, hours),
    {
        if self.utc_offset_minutes < i32::MIN + 30 || self.utc_offset_minutes > i32::MAX - 30 {
            return false;
        }
        let current = self.utc_offset_hours() as i64;
        let new_offset_hours = current + hours as i64;
        new_offset_hours >= i32::MIN as i64 && new_offset_hours + 12 <= i32::MAX as i64
    }

    /// The offset added to the system timer, in ticks.
    pub fn offset_in_ticks(&self) -> (ticks: u64)
        ensures
            ticks == self.offset_ticks(),
    {
        self.offset
    }

    /// Moves the time of day forward by `duration` ticks, around the day.
    pub fn add_assign(&mut self, duration: u64)
        ensures
            final(self).utc_offset() == old(self).utc_offset(),
            final(self).offset_ticks() == (old(self).offset_ticks() % TICKS_IN_ONE_DAY + duration
                % TICKS_IN_ONE_DAY) % (TICKS_IN_ONE_DAY as int),
    {
        let ticks = self.offset % TICKS_IN_ONE_DAY + duration % TICKS_IN_ONE_DAY;
        self.offset = ticks % TICKS_IN_ONE_DAY;
    }
}

} // verus!
