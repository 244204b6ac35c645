//! The clock device: local time from the boot timestamp and the time since boot, the
//! 12-hour dial, and when the next tick is due.

use vstd::prelude::*;

use crate::clock_time::TICK_HZ;

verus! {

#[verifier::external_type_specification]
#[verifier::external_body]
pub struct ExOffsetDateTime(::time::OffsetDateTime);

/// The hour (0 to 23) that the time crate gives for a date-time, in its offset.
pub uninterp spec fn offset_hour(date_time: ::time::OffsetDateTime) -> u8;

/// The minute (0 to 59) that the time crate gives for a date-time, in its offset.
pub uninterp spec fn offset_minute(date_time: ::time::OffsetDateTime) -> u8;

/// The second (0 to 59) that the time crate gives for a date-time, in its offset.
pub uninterp spec fn offset_second(date_time: ::time::OffsetDateTime) -> u8;

/// The hour (0 to 23) of a date-time, in its offset.
///
/// Calls `OffsetDateTime::hour`, which the time crate documents as always in `0..24`;
/// the result depends on the date-time alone, named `offset_hour`.
#[verifier::external_body]
fn date_time_hour(date_time: &::time::OffsetDateTime) -> (hour: u8)
    ensures
        hour == offset_hour(*date_time),
        hour < 24,
{
    date_time.hour()
}

/// The minute (0 to 59) of a date-time, in its offset.
///
/// Calls `OffsetDateTime::minute`, documented as always in `0..60`; the result depends on
/// the date-time alone, named `offset_minute`.
#[verifier::external_body]
fn date_time_minute(date_time: &::time::OffsetDateTime) -> (minute: u8)
    ensures
        minute == offset_minute(*date_time),
        minute < 60,
{
    date_time.minute()
}

/// The second (0 to 59) of a date-time, in its offset.
///
/// Calls `OffsetDateTime::second`, documented as always in `0..60`; the result depends on
/// the date-time alone, named `offset_second`.
#[verifier::external_body]
fn date_time_second(date_time: &::time::OffsetDateTime) -> (second: u8)
    ensures
        second == offset_second(*date_time),
        second < 60,
{
    date_time.second()
}

/// The first second of the date-times that the time crate can hold (year -9999).
pub const MIN_UNIX_SECONDS: i64 = -377_705_116_800;

/// The last second of the date-times that the time crate can hold (year 9999).
pub const MAX_UNIX_SECONDS: i64 = 253_402_300_799;

/// Seconds in a day.
pub const SECONDS_PER_DAY: i64 = 86_400;

/// The time crate can hold the instant `utc_unix_seconds` both in UTC and in the offset
/// `offset_minutes`, and the offset in seconds is one the time crate takes (under 26 hours
/// either way).
pub open spec fn local_date_time_ok(utc_unix_seconds: int, offset_minutes: int) -> bool {
    &&& MIN_UNIX_SECONDS <= utc_unix_seconds <= MAX_UNIX_SECONDS
    &&& MIN_UNIX_SECONDS <= utc_unix_seconds + offset_minutes * 60 <= MAX_UNIX_SECONDS
    &&& -1560 < offset_minutes < 1560
}

/// Seconds since local midnight at the instant `utc_unix_seconds` in the offset
/// `offset_minutes`.
pub open spec fn local_seconds_of_day(utc_unix_seconds: int, offset_minutes: int) -> int {
    (utc_unix_seconds + offset_minutes * 60) % (SECONDS_PER_DAY as int)
}

/// The date-time of the Unix time `utc_unix_seconds` in the offset `offset_minutes`.
///
/// Calls `OffsetDateTime::from_unix_timestamp`, which takes the time of day as the
/// timestamp's Euclidean remainder by a day, then `to_offset` with the offset built by
/// `UtcOffset::from_whole_seconds`, which moves the time of day by the offset. Neither
/// fails (nor panics) on the instants and offsets `requires` admits.
#[verifier::external_body]
fn local_date_time(utc_unix_seconds: i64, offset_minutes: i32) -> (date_time: ::time::OffsetDateTime)
    requires
        local_date_time_ok(utc_unix_seconds as int, offset_minutes as int),
    ensures
        offset_hour(date_time) == local_seconds_of_day(utc_unix_seconds as int, offset_minutes as int)
            / 3600,
        offset_minute(date_time) == local_seconds_of_day(utc_unix_seconds as int, offset_minutes as int)
            % 3600 / 60,
        offset_second(date_time) == local_seconds_of_day(utc_unix_seconds as int, offset_minutes as int)
            % 60,
{
    let offset = ::time::UtcOffset::from_whole_seconds(offset_minutes * 60).unwrap();
    ::time::OffsetDateTime::from_unix_timestamp(utc_unix_seconds).unwrap().to_offset(offset)
}

/// The Unix time now from the boot timestamp and the seconds since boot, as
/// `utc_now_seconds` gives it while the time is set.
pub open spec fn saturated_now(boot_unix_seconds: i64, uptime_seconds: u64) -> int {
    if boot_unix_seconds + (uptime_seconds as i64) > i64::MAX {
        i64::MAX as int
    } else if boot_unix_seconds + (uptime_seconds as i64) < i64::MIN {
        i64::MIN as int
    } else {
        boot_unix_seconds + (uptime_seconds as i64)
    }
}

/// Seconds since local midnight that `now_local` shows: 0 (midnight UTC of 1 January
/// 1970) while the time is not set, else the local time of day now.
pub open spec fn now_local_seconds_of_day(boot_unix_seconds: i64, uptime_seconds: u64, offset_minutes: i32) -> int {
    if boot_unix_seconds == 0 {
        0
    } else {
        local_seconds_of_day(saturated_now(boot_unix_seconds, uptime_seconds), offset_minutes as int)
    }
}

/// Local time now, from the boot timestamp (0: not set), the seconds since boot and the
/// offset from UTC in minutes: midnight of 1 January 1970 UTC while the time is not set,
/// else the boot time plus the uptime (saturating) in the offset.
pub fn now_local(boot_unix_seconds: i64, uptime_seconds: u64, offset_minutes: i32) -> (date_time:
    ::time::OffsetDateTime)
    requires
        boot_unix_seconds != 0 ==> local_date_time_ok(
            saturated_now(boot_unix_seconds, uptime_seconds),
            offset_minutes as int,
        ),
    ensures
        offset_hour(date_time) == now_local_seconds_of_day(boot_unix_seconds, uptime_seconds, offset_minutes)
            / 3600,
        offset_minute(date_time) == now_local_seconds_of_day(boot_unix_seconds, uptime_seconds, offset_minutes)
            % 3600 / 60,
        offset_second(date_time) == now_local_seconds_of_day(boot_unix_seconds, uptime_seconds, offset_minutes)
            % 60,
{
    match utc_now_seconds(boot_unix_seconds, uptime_seconds) {
        None => local_date_time(0, 0),
        Some(utc) => local_date_time(utc, offset_minutes),
    }
}

/// An hour of the day (0 to 23) on the 12-hour dial: midnight and noon are 12.
pub open spec fn dial_hour_of(hour_24: int) -> int {
    if hour_24 == 0 {
        12
    } else if hour_24 <= 12 {
        hour_24
    } else {
        hour_24 - 12
    }
}

/// Hour on the 12-hour dial, minute and second of a 24-hour time.
pub fn h12_m_s_of(hour_24: u8, minute: u8, second: u8) -> (dial: (u8, u8, u8))
    ensures
        dial == (dial_hour_of(hour_24 as int) as u8, minute, second),
{
    let hour_12 = if hour_24 == 0 {
        12
    } else if hour_24 <= 12 {
        hour_24
    } else {
        hour_24 - 12
    };
    (hour_12, minute, second)
}

/// Hour on the 12-hour dial, minute and second of a date-time in its offset.
pub fn h12_m_s(date_time: &::time::OffsetDateTime) -> (dial: (u8, u8, u8))
    ensures
        dial == (dial_hour_of(offset_hour(*date_time) as int) as u8, offset_minute(*date_time), offset_second(
            *date_time,
        )),
        1 <= dial.0 <= 12,
        dial.1 < 60,
        dial.2 < 60,
{
    let hour_24 = date_time_hour(date_time);
    let minute = date_time_minute(date_time);
    let second = date_time_second(date_time);
    h12_m_s_of(hour_24, minute, second)
}

/// The current Unix time from the boot timestamp and the seconds since boot, saturating
/// at the ends of `i64`; `None` while the time has not been set (boot timestamp 0).
pub fn utc_now_seconds(boot_unix_seconds: i64, uptime_seconds: u64) -> (now: Option<i64>)
    ensures
        boot_unix_seconds == 0 ==> now is None,
        boot_unix_seconds != 0 ==> now == Some(
            if boot_unix_seconds + (uptime_seconds as i64) > i64::MAX {
                i64::MAX
            } else if boot_unix_seconds + (uptime_seconds as i64) < i64::MIN {
                i64::MIN
            } else {
                (boot_unix_seconds + (uptime_seconds as i64)) as i64
            },
        ),
{
    if boot_unix_seconds == 0 {
        return None;
    }
    let uptime = uptime_seconds as i64;
    match boot_unix_seconds.checked_add(uptime) {
        Some(sum) => Some(sum),
        None => Some(if uptime > 0 { i64::MAX } else { i64::MIN }),
    }
}

/// The Unix time at boot, given the Unix time now and the seconds since boot, saturating
/// at the ends of `i64`.
pub fn boot_unix_seconds(unix_seconds: i64, uptime_seconds: u64) -> (boot: i64)
    ensures
        boot == if unix_seconds - (uptime_seconds as i64) > i64::MAX {
            i64::MAX
        } else if unix_seconds - (uptime_seconds as i64) < i64::MIN {
            i64::MIN
        } else {
            (unix_seconds - (uptime_seconds as i64)) as i64
        },
{
    let uptime = uptime_seconds as i64;
    match unix_seconds.checked_sub(uptime) {
        Some(difference) => difference,
        None => if uptime > 0 { i64::MIN } else { i64::MAX },
    }
}

/// Whole seconds of the timer's tick count.
pub fn uptime_seconds(ticks: u64) -> (seconds: u64)
    ensures
        seconds == ticks / TICK_HZ,
{
    ticks / TICK_HZ
}

/// Ticks until the next tick boundary of an interval of `interval_ms` milliseconds, at
/// `now_ticks` ticks since boot; `None` when ticking is off (an interval of 0), in which
/// case the device waits for a command. Every wake-up emits a tick.
pub fn next_tick_wait(now_ticks: u64, interval_ms: u64) -> (wait: Option<u64>)
    requires
        interval_ms * 1000 <= u64::MAX,
    ensures
        interval_ms == 0 ==> wait is None,
        interval_ms > 0 ==> wait == Some(
            (interval_ms * 1000 - (now_ticks as int) % (interval_ms * 1000)) as u64,
        ),
        wait matches Some(w) ==> 0 < w <= interval_ms * 1000,
{
    if interval_ms == 0 {
        return None;
    }
    let interval_ticks = interval_ms * 1000;
    Some(interval_ticks - (now_ticks % interval_ticks))
}

/// The dial shows every hour of the day as 1 to 12, and hours twelve apart alike.
pub proof fn dial_hour_wraps(hour_24: int)
    requires
        0 <= hour_24 < 12,
    ensures
        1 <= dial_hour_of(hour_24) <= 12,
        dial_hour_of(hour_24) == dial_hour_of(hour_24 + 12),
{
}

} // verus!
