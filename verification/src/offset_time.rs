//! Clocks that read the system timer plus a fixed offset.

use vstd::prelude::*;

use crate::clock_time::{h_m_s, now_ticks, ticks_till_next, till_next, TICK_HZ};

verus! {

/// Hour (1 to 12), minute and second of `time` ticks (not reduced to one day: the dial
/// wraps every twelve hours anyway), and the ticks until the next multiple of `unit`.
pub fn dial_time(time: u64, unit: u64) -> (result: (u8, u8, u8, u64))
    requires
        unit > 0,
    ensures
        (result.0 as int, result.1 as int, result.2 as int) == h_m_s(time as int),
        result.3 == ticks_till_next(time, unit),
        1 <= result.0 <= 12,
        result.1 < 60,
        result.2 < 60,
{
    let sleep_duration = till_next(time, unit);
    let elapsed_seconds = time / TICK_HZ;
    let hours = ((elapsed_seconds / 3600) + 11) % 12 + 1;
    let minutes = (elapsed_seconds % 3600) / 60;
    let seconds = elapsed_seconds % 60;
    (hours as u8, minutes as u8, seconds as u8, sleep_duration)
}

/// A clock reading the system timer plus an offset (typically the build time).
pub struct OffsetTime {
    pub offset: u64,
}

impl OffsetTime {
    /// A clock `offset_millis` milliseconds ahead of the system timer.
    pub fn from_millis(offset_millis: u64) -> (clock: Self)
        requires
            offset_millis * 1000 <= u64::MAX,
        ensures
            clock.offset == offset_millis * 1000,
    {
        OffsetTime { offset: offset_millis * 1000 }
    }

    /// Time, in ticks, at `now_ticks` ticks since boot.
    pub fn now_at(&self, now_ticks: u64) -> (ticks: u64)
        requires
            now_ticks + self.offset <= u64::MAX,
        ensures
            ticks == now_ticks + self.offset,
    {
        now_ticks + self.offset
    }

    /// Time now, in ticks. The timer reading must leave room for the offset.
    pub fn now(&self) -> (ticks: Option<u64>)
        ensures
            ticks matches Some(t) ==> t >= self.offset,
            self.offset == 0 ==> ticks is Some,
    {
        let now = now_ticks();
        if now <= u64::MAX - self.offset {
            Some(self.now_at(now))
        } else {
            None
        }
    }

    /// Hour (1 to 12), minute and second at `now_ticks` ticks since boot, and the ticks
    /// until the next multiple of `unit`.
    pub fn h_m_s_sleep_duration_at(&self, now_ticks: u64, unit: u64) -> (result: (u8, u8, u8, u64))
        requires
            unit > 0,
            now_ticks + self.offset <= u64::MAX,
        ensures
            (result.0 as int, result.1 as int, result.2 as int) == h_m_s(now_ticks + self.offset),
            result.3 == ticks_till_next((now_ticks + self.offset) as u64, unit),
    {
        dial_time(self.now_at(now_ticks), unit)
    }

    /// Hour (1 to 12), minute and second now, and the ticks until the next multiple of
    /// `unit`; `None` when the timer reading leaves no room for the offset.
    pub fn h_m_s_sleep_duration(&self, unit: u64) -> (result: Option<(u8, u8, u8, u64)>)
        requires
            unit > 0,
        ensures
            result matches Some(r) ==> 1 <= r.0 <= 12 && r.1 < 60 && r.2 < 60 && 0 < r.3 <= unit,
            result matches Some(r) ==> exists|t: u64|
                (r.0 as int, r.1 as int, r.2 as int) == #[trigger] h_m_s(t + self.offset) && t + self.offset
                    <= u64::MAX && r.3 == ticks_till_next((t + self.offset) as u64, unit),
            self.offset == 0 ==> result is Some,
    {
        let now = now_ticks();
        if now <= u64::MAX - self.offset {
            let result = self.h_m_s_sleep_duration_at(now, unit);
            assert(h_m_s(now + self.offset) == (result.0 as int, result.1 as int, result.2 as int));
            Some(result)
        } else {
            None
        }
    }

    /// Ticks from `a` until the next multiple of `b`.
    pub fn till_next(a: u64, b: u64) -> (ticks: u64)
        requires
            b > 0,
        ensures
            ticks == ticks_till_next(a, b),
    {
        till_next(a, b)
    }

    /// Moves the clock forward by `duration` ticks.
    pub fn add_assign(&mut self, duration: u64)
        requires
            old(self).offset + duration <= u64::MAX,
        ensures
            final(self).offset == old(self).offset + duration,
    {
        self.offset = self.offset + duration;
    }
}

/// A clock that counts from the instant it was created, plus an adjustable offset.
pub struct AdjustableClock {
    pub start: u64,
    pub offset: u64,
}

impl AdjustableClock {
    /// A clock started at `start` ticks since boot, with no offset.
    pub fn started_at(start: u64) -> (clock: Self)
        ensures
            clock.start == start,
            clock.offset == 0,
    {
        AdjustableClock { start, offset: 0 }
    }

    /// A clock started now.
    pub fn default() -> (clock: Self)
        ensures
            clock.offset == 0,
    {
        Self::started_at(now_ticks())
    }

    /// Time, in ticks, at `now_ticks` ticks since boot: the time since the start plus the
    /// offset.
    pub fn now_at(&self, now_ticks: u64) -> (ticks: u64)
        requires
            self.start <= now_ticks,
            now_ticks - self.start + self.offset <= u64::MAX,
        ensures
            ticks == now_ticks - self.start + self.offset,
    {
        now_ticks - self.start + self.offset
    }

    /// Hour (1 to 12), minute and second at `now_ticks` ticks since boot, and the ticks
    /// until the next multiple of `unit`.
    pub fn h_m_s_update_at(&self, now_ticks: u64, unit: u64) -> (result: (u8, u8, u8, u64))
        requires
            unit > 0,
            self.start <= now_ticks,
            now_ticks - self.start + self.offset <= u64::MAX,
        ensures
            (result.0 as int, result.1 as int, result.2 as int) == h_m_s(
                now_ticks - self.start + self.offset,
            ),
            result.3 == ticks_till_next((now_ticks - self.start + self.offset) as u64, unit),
    {
        dial_time(self.now_at(now_ticks), unit)
    }

    /// Time now, in ticks; `None` when the timer reads before the start or the sum
    /// overflows.
    pub fn now(&self) -> (ticks: Option<u64>)
        ensures
            ticks matches Some(t) ==> t >= self.offset,
            self.start == 0 && self.offset == 0 ==> ticks is Some,
    {
        let now = now_ticks();
        if self.start <= now && now - self.start <= u64::MAX - self.offset {
            Some(self.now_at(now))
        } else {
            None
        }
    }

    /// Hour (1 to 12), minute and second now, and the ticks until the next multiple of
    /// `unit`; `None` as for [`now`](AdjustableClock::now).
    pub fn h_m_s_update(&self, unit: u64) -> (result: Option<(u8, u8, u8, u64)>)
        requires
            unit > 0,
        ensures
            result matches Some(r) ==> 1 <= r.0 <= 12 && r.1 < 60 && r.2 < 60 && 0 < r.3 <= unit,
            result matches Some(r) ==> exists|t: u64|
                (r.0 as int, r.1 as int, r.2 as int) == #[trigger] h_m_s(t + self.offset) && t + self.offset
                    <= u64::MAX && r.3 == ticks_till_next((t + self.offset) as u64, unit),
            self.start == 0 && self.offset == 0 ==> result is Some,
    {
        let now = now_ticks();
        if self.start <= now && now - self.start <= u64::MAX - self.offset {
            let result = self.h_m_s_update_at(now, unit);
            let elapsed = now - self.start;
            assert(h_m_s(elapsed + self.offset) == (result.0 as int, result.1 as int, result.2 as int));
            Some(result)
        } else {
            None
        }
    }

    /// Moves the clock forward by `duration` ticks.
    pub fn add_assign(&mut self, duration: u64)
        requires
            old(self).offset + duration <= u64::MAX,
        ensures
            final(self).offset == old(self).offset + duration,
            final(self).start == old(self).start,
    {
        self.offset = self.offset + duration;
    }
}

} // verus!
