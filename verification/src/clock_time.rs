//! Time of day kept as an offset from the monotonic clock since boot.
//!
//! Durations and instants are counted in ticks of the system timer, which runs at
//! [`TICK_HZ`] (one tick per microsecond).

use vstd::prelude::*;

use crate::time_sync::UnixSeconds;

verus! {

/// Ticks of the system timer per second.
pub const TICK_HZ: u64 = 1_000_000;

/// One second, in ticks.
pub const ONE_SECOND: u64 = 1_000_000;

/// One minute, in ticks.
pub const ONE_MINUTE: u64 = 60_000_000;

/// One hour, in ticks.
pub const ONE_HOUR: u64 = 3_600_000_000;

/// One day, in ticks.
pub const ONE_DAY: u64 = 86_400_000_000;

/// Number of ticks in one day.
pub const TICKS_IN_ONE_DAY: u64 = 86_400_000_000;

/// Seconds in one day.
pub const SECONDS_IN_ONE_DAY: i64 = 86_400;

/// Ticks since boot, read from the system timer.
///
/// Calls `embassy_time::Instant::now` and converts the instant to its tick count with
/// `as_ticks`. Nothing is claimed of the value: it is the time.
#[verifier::external_body]
pub fn now_ticks() -> (ticks: u64) {
    embassy_time::Instant::now().as_ticks()
}

/// Time of day, in ticks, at `now_ticks` ticks since boot for a clock whose offset is
/// `offset_ticks`.
pub open spec fn time_of_day(now_ticks: u64, offset_ticks: u64) -> int {
    (now_ticks % TICKS_IN_ONE_DAY + offset_ticks % TICKS_IN_ONE_DAY) % (TICKS_IN_ONE_DAY as int)
}

/// Ticks left until the next multiple of `unit`.
pub open spec fn ticks_till_next(time: u64, unit: u64) -> int {
    unit - time % unit
}

/// Hour on a 12-hour dial (1 to 12) of a time of day given in whole seconds.
pub open spec fn dial_hour(seconds: int) -> int {
    ((seconds / 3600) + 11) % 12 + 1
}

/// Hour on the 12-hour dial, minute and second of a time of day in ticks.
pub open spec fn h_m_s(ticks: int) -> (int, int, int) {
    let seconds = ticks / (TICK_HZ as int);
    (dial_hour(seconds), (seconds % 3600) / 60, seconds % 60)
}

/// Seconds past local midnight of a Unix timestamp, at a UTC offset in minutes.
pub open spec fn local_seconds_of_day(unix_seconds: int, offset_minutes: int) -> int {
    (unix_seconds + offset_minutes * 60) % 86400
}

/// Local seconds of `unix_seconds` fit in `i64` and are not a negative remainder away
/// from a day boundary (which the timer arithmetic cannot represent).
pub open spec fn local_seconds_ok(unix_seconds: int, offset_minutes: int) -> bool {
    let local = unix_seconds + offset_minutes * 60;
    &&& i64::MIN <= local <= i64::MAX
    &&& (local >= 0 || local % 86400 == 0)
}

/// Whether `unix_seconds` at a UTC offset of `offset_minutes` can set a clock; see
/// [`local_seconds_ok`].
pub fn local_seconds_fit(unix_seconds: i64, offset_minutes: i32) -> (ok: bool)
    ensures
        ok == local_seconds_ok(unix_seconds as int, offset_minutes as int),
{
    let local = unix_seconds as i128 + (offset_minutes as i128) * 60;
    if local < i64::MIN as i128 || local > i64::MAX as i128 {
        return false;
    }
    if local >= 0 {
        return true;
    }
    let magnitude = (-local) as u128;
    proof {
        let l = local as int;
        vstd::arithmetic::div_mod::lemma_add_mod_noop(l, -l, 86400);
        vstd::arithmetic::div_mod::lemma_mod_bound(l, 86400);
        vstd::arithmetic::div_mod::lemma_mod_bound(-l, 86400);
        assert((l % 86400 == 0) == ((-l) % 86400 == 0));
    }
    magnitude % 86400 == 0
}

/// Ticks left until the next multiple of `unit` after `time`.
pub fn till_next(time: u64, unit: u64) -> (ticks: u64)
    requires
        unit > 0,
    ensures
        ticks == ticks_till_next(time, unit),
        0 < ticks <= unit,
{
    unit - time % unit
}

/// Hour (1 to 12), minute, second of a time of day in ticks, and the ticks until the
/// next multiple of `unit`.
pub fn h_m_s_of(time: u64, unit: u64) -> (result: (u8, u8, u8, u64))
    requires
        unit > 0,
        time < TICKS_IN_ONE_DAY,
    ensures
        (result.0 as int, result.1 as int, result.2 as int) == h_m_s(time as int),
        result.3 == ticks_till_next(time, unit),
        1 <= result.0 <= 12,
        result.1 < 60,
        result.2 < 60,
{
    let sleep_duration = till_next(time, unit);
    let elapsed_seconds = time / TICK_HZ;
    let hours = ((elapsed_seconds / 3600) + 11) % 12 + 1;
    let minutes = (elapsed_seconds % 3600) / 60;
    let seconds = elapsed_seconds % 60;
    (hours as u8, minutes as u8, seconds as u8, sleep_duration)
}

/// A clock that keeps local time of day as an offset from the system timer, with a UTC
/// offset in minutes.
pub struct ClockTime {
    offset: u64,
    offset_minutes: i32,
}

impl ClockTime {
    /// The offset added to the system timer, in ticks.
    pub closed spec fn offset_ticks(&self) -> u64 {
        self.offset
    }

    /// The UTC offset, in minutes.
    pub closed spec fn utc_offset(&self) -> i32 {
        self.offset_minutes
    }

    /// A clock at the given UTC offset whose time of day starts at noon plus the time
    /// since boot; [`set_from_unix`](ClockTime::set_from_unix) sets the real time.
    pub fn new(initial_offset_minutes: i32) -> (clock: Self)
        ensures
            clock.offset_ticks() == 43_200_000_000,
            clock.utc_offset() == initial_offset_minutes,
    {
        Self { offset: 43_200_000_000, offset_minutes: initial_offset_minutes }
    }

    /// The offset added to the system timer, in ticks.
    pub fn offset_in_ticks(&self) -> (ticks: u64)
        ensures
            ticks == self.offset_ticks(),
    {
        self.offset
    }

    /// The UTC offset in minutes.
    pub fn offset_minutes(&self) -> (minutes: i32)
        ensures
            minutes == self.utc_offset(),
    {
        self.offset_minutes
    }

    /// Sets the clock so that, at `now_ticks` ticks since boot, the time of day is the
    /// local time of `unix_seconds`.
    pub fn set_from_unix_at(&mut self, unix_seconds: UnixSeconds, now_ticks: u64)
        requires
            local_seconds_ok(unix_seconds.0 as int, old(self).utc_offset() as int),
        ensures
            final(self).utc_offset() == old(self).utc_offset(),
            final(self).offset_ticks() < TICKS_IN_ONE_DAY,
            time_of_day(now_ticks, final(self).offset_ticks()) == local_seconds_of_day(
                unix_seconds.0 as int,
                old(self).utc_offset() as int,
            ) * (TICK_HZ as int),
    {
        let local_seconds = unix_seconds.as_i64() + (self.offset_minutes as i64) * 60;
        let seconds_since_midnight = (local_seconds % SECONDS_IN_ONE_DAY) as u64;
        proof {
            assert(0 <= seconds_since_midnight < 86400) by {
                if local_seconds < 0 {
                    assert(local_seconds % SECONDS_IN_ONE_DAY == 0);
                }
            }
            assert(seconds_since_midnight == local_seconds_of_day(
                unix_seconds.0 as int,
                self.offset_minutes as int,
            ));
        }
        let millis_since_midnight = seconds_since_midnight * 1000;
        let current_instant_ticks = now_ticks % TICKS_IN_ONE_DAY;
        let target_ticks = (millis_since_midnight * 1000) % TICKS_IN_ONE_DAY;
        let offset_ticks = if target_ticks >= current_instant_ticks {
            target_ticks - current_instant_ticks
        } else {
            TICKS_IN_ONE_DAY + target_ticks - current_instant_ticks
        };
        self.offset = offset_ticks % TICKS_IN_ONE_DAY;
    }

    /// Synchronizes the clock to a Unix timestamp read now.
    pub fn set_from_unix(&mut self, unix_seconds: UnixSeconds)
        requires
            local_seconds_ok(unix_seconds.0 as int, old(self).utc_offset() as int),
        ensures
            final(self).utc_offset() == old(self).utc_offset(),
            final(self).offset_ticks() < TICKS_IN_ONE_DAY,
            exists|t: u64|
                #[trigger] time_of_day(t, final(self).offset_ticks()) == local_seconds_of_day(
                    unix_seconds.0 as int,
                    old(self).utc_offset() as int,
                ) * (TICK_HZ as int),
    {
        let now = now_ticks();
        self.set_from_unix_at(unix_seconds, now);
        assert(time_of_day(now, self.offset_ticks()) == local_seconds_of_day(
            unix_seconds.0 as int,
            old(self).utc_offset() as int,
        ) * (TICK_HZ as int));
    }

    /// Time of day, in ticks, at `now_ticks` ticks since boot.
    pub fn now_at(&self, now_ticks: u64) -> (ticks: u64)
        ensures
            ticks == time_of_day(now_ticks, self.offset_ticks()),
            ticks < TICKS_IN_ONE_DAY,
    {
        let ticks = now_ticks % TICKS_IN_ONE_DAY + self.offset % TICKS_IN_ONE_DAY;
        ticks % TICKS_IN_ONE_DAY
    }

    /// Hour (1 to 12), minute and second at `now_ticks` ticks since boot, and the ticks
    /// until the next multiple of `unit`.
    pub fn h_m_s_sleep_duration_at(&self, now_ticks: u64, unit: u64) -> (result: (u8, u8, u8, u64))
        requires
            unit > 0,
        ensures
            (result.0 as int, result.1 as int, result.2 as int) == h_m_s(
                time_of_day(now_ticks, self.offset_ticks()),
            ),
            result.3 == unit - time_of_day(now_ticks, self.offset_ticks()) % (unit as int),
    {
        let now = self.now_at(now_ticks);
        h_m_s_of(now, unit)
    }

    /// Hour (1 to 12), minute and second now, and the ticks until the next multiple of
    /// `unit`.
    pub fn h_m_s_sleep_duration(&self, unit: u64) -> (result: (u8, u8, u8, u64))
        requires
            unit > 0,
        ensures
            1 <= result.0 <= 12,
            result.1 < 60,
            result.2 < 60,
            0 < result.3 <= unit,
            exists|t: u64|
                (result.0 as int, result.1 as int, result.2 as int) == h_m_s(
                    #[trigger] time_of_day(t, self.offset_ticks()),
                ) && result.3 == unit - time_of_day(t, self.offset_ticks()) % (unit as int),
    {
        let now = now_ticks();
        let time = self.now_at(now);
        let result = h_m_s_of(time, unit);
        assert(time == time_of_day(now, self.offset_ticks()));
        result
    }

    /// Changes the UTC offset, moving the time of day by the difference so the clock
    /// keeps showing the same instant in the new zone.
    pub fn set_offset_minutes(&mut self, offset_minutes: i32)
        requires
            i32::MIN <= (offset_minutes - old(self).utc_offset()) * 60 <= i32::MAX,
            (offset_minutes - old(self).utc_offset()) * 60 > i32::MIN,
            old(self).offset_ticks() + (offset_minutes - old(self).utc_offset()) * 60 * TICK_HZ
                <= u64::MAX,
            old(self).offset_ticks() + (offset_minutes - old(self).utc_offset()) * 60 * TICK_HZ
                >= 0,
        ensures
            final(self).utc_offset() == offset_minutes,
            final(self).offset_ticks() == old(self).offset_ticks() + (offset_minutes
                - old(self).utc_offset()) * 60 * TICK_HZ,
    {
        let delta_minutes = offset_minutes - self.offset_minutes;
        let delta_seconds = delta_minutes * 60;
        if delta_seconds >= 0 {
            self.offset = self.offset + (delta_seconds as u64) * TICK_HZ;
        } else {
            self.offset = self.offset - ((-delta_seconds) as u64) * TICK_HZ;
        }
        self.offset_minutes = offset_minutes;
    }
}

/// Once set from a Unix timestamp, the clock reads the local time of that timestamp at
/// the moment it was set, and moves on with the system timer from there.
#[verifier::spinoff_prover]
#[verifier::rlimit(40)]
pub proof fn clock_follows_timer_after_sync(
    clock: ClockTime,
    unix_seconds: int,
    set_at: u64,
    later: u64,
)
    requires
        clock.offset_ticks() < TICKS_IN_ONE_DAY,
        time_of_day(set_at, clock.offset_ticks()) == local_seconds_of_day(
            unix_seconds,
            clock.utc_offset() as int,
        ) * (TICK_HZ as int),
        set_at <= later,
    ensures
        time_of_day(later, clock.offset_ticks()) == (local_seconds_of_day(
            unix_seconds,
            clock.utc_offset() as int,
        ) * (TICK_HZ as int) + (later - set_at)) % (TICKS_IN_ONE_DAY as int),
{
    let d = TICKS_IN_ONE_DAY as int;
    let o = clock.offset_ticks() as int;
    vstd::arithmetic::div_mod::lemma_add_mod_noop(set_at as int, o, d);
    vstd::arithmetic::div_mod::lemma_add_mod_noop(later as int, o, d);
    vstd::arithmetic::div_mod::lemma_add_mod_noop(set_at as int + o, later - set_at, d);
    vstd::arithmetic::div_mod::lemma_mod_twice(set_at as int, d);
    vstd::arithmetic::div_mod::lemma_mod_twice(later as int, d);
    vstd::arithmetic::div_mod::lemma_small_mod(o as nat, d as nat);
    assert(time_of_day(set_at, clock.offset_ticks()) == (set_at as int + o) % d);
    assert(time_of_day(later, clock.offset_ticks()) == (later as int + o) % d);
    assert((later as int + o) == (set_at as int + o) + (later - set_at));
}

} // verus!
