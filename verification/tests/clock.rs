use std::sync::atomic::{AtomicI32, Ordering};

use device_kit::button::PressDuration;
use device_kit::clock::{boot_unix_seconds, h12_m_s, h12_m_s_of, next_tick_wait, now_local, uptime_seconds, utc_now_seconds};
use device_kit::clock_led4::state::{
    connect_deadline, connect_time_left, ones_digit, tens_digit, tens_hours, ClockLed4Effect,
    ClockLed4Event, ClockLed4State, CONNECTING_FRAME_DURATION, CONNECT_TIMEOUT, EDIT_BLINK_DURATION,
};
use device_kit::clock_led4::time::ClockTime as Led4ClockTime;
use device_kit::clock_led4::ClockLed4Command;
use device_kit::clock_time::{h_m_s_of, till_next, ClockTime, ONE_HOUR, ONE_MINUTE, ONE_SECOND, TICKS_IN_ONE_DAY};
use device_kit::led4::BlinkState;
use device_kit::offset_time::{dial_time, AdjustableClock, OffsetTime};
use device_kit::time_sync::{TimeSyncEvent, UnixSeconds};

/// 2023-11-14 22:13:20 UTC.
const STAMP: i64 = 1_700_000_000;

fn mirror() -> &'static AtomicI32 {
    Box::leak(Box::new(AtomicI32::new(i32::MIN)))
}

#[test]
fn dial_of_time_of_day() {
    assert_eq!(h_m_s_of(0, ONE_MINUTE), (12, 0, 0, ONE_MINUTE));
    assert_eq!(h_m_s_of(13 * ONE_HOUR + 5 * ONE_MINUTE + 7 * ONE_SECOND, ONE_SECOND), (1, 5, 7, ONE_SECOND));
    assert_eq!(h_m_s_of(12 * ONE_HOUR + 30 * ONE_SECOND, ONE_MINUTE), (12, 0, 30, 30 * ONE_SECOND));
    assert_eq!(h_m_s_of(TICKS_IN_ONE_DAY - 1, ONE_SECOND), (11, 59, 59, 1));
}

#[test]
fn till_next_is_never_zero() {
    assert_eq!(till_next(0, 10), 10);
    assert_eq!(till_next(3, 10), 7);
    assert_eq!(till_next(20, 10), 10);
}

#[test]
fn new_clock_starts_at_noon() {
    let clock = ClockTime::new(-300);
    assert_eq!(clock.offset_minutes(), -300);
    assert_eq!(clock.offset_in_ticks(), 12 * ONE_HOUR);
    assert_eq!(clock.now_at(0), 12 * ONE_HOUR);
    assert_eq!(clock.h_m_s_sleep_duration_at(0, ONE_MINUTE), (12, 0, 0, ONE_MINUTE));
}

#[test]
fn set_from_unix_shows_utc_time() {
    let mut clock = ClockTime::new(0);
    clock.set_from_unix_at(UnixSeconds(STAMP), 5 * ONE_SECOND);
    assert_eq!(clock.now_at(5 * ONE_SECOND), 80_000 * ONE_SECOND);
    assert_eq!(clock.h_m_s_sleep_duration_at(5 * ONE_SECOND, ONE_MINUTE), (10, 13, 20, 40 * ONE_SECOND));
    assert_eq!(clock.h_m_s_sleep_duration_at(65 * ONE_SECOND, ONE_SECOND), (10, 14, 20, ONE_SECOND));
}

#[test]
fn set_from_unix_respects_offset() {
    let mut clock = ClockTime::new(-300);
    clock.set_from_unix_at(UnixSeconds(STAMP), 0);
    assert_eq!(clock.h_m_s_sleep_duration_at(0, ONE_MINUTE).0, 5);
    clock.set_offset_minutes(60);
    assert_eq!(clock.offset_minutes(), 60);
    let (h, m, s, _) = clock.h_m_s_sleep_duration_at(0, ONE_MINUTE);
    assert_eq!((h, m, s), (11, 13, 20));
}

#[test]
fn time_wraps_around_midnight() {
    let mut clock = ClockTime::new(0);
    clock.set_from_unix_at(UnixSeconds(86_400 - 1), 0);
    assert_eq!(clock.now_at(0), TICKS_IN_ONE_DAY - ONE_SECOND);
    assert_eq!(clock.now_at(ONE_SECOND), 0);
}

#[test]
fn led4_clock_offsets_and_mirror() {
    let m = mirror();
    let mut clock = Led4ClockTime::new(-31, m);
    assert_eq!(m.load(Ordering::Relaxed), -31);
    assert_eq!(clock.utc_offset_hours(), -1);
    clock.set_utc_offset_minutes(90);
    assert_eq!(clock.utc_offset_hours(), 2);
    assert_eq!(m.load(Ordering::Relaxed), 90);
    clock.set_utc_offset_minutes(-12 * 60);
    let before = clock.now_at(0);
    clock.adjust_utc_offset_hours(-1);
    assert_eq!(clock.utc_offset_minutes(), 14 * 60);
    assert_eq!(m.load(Ordering::Relaxed), 14 * 60);
    assert_eq!(clock.now_at(0), (before + 26 * ONE_HOUR) % TICKS_IN_ONE_DAY);
    clock.adjust_utc_offset_hours(-3);
    assert_eq!(clock.utc_offset_minutes(), 11 * 60);
}

#[test]
fn led4_clock_sync_and_add() {
    let mut clock = Led4ClockTime::new(0, mirror());
    clock.set_from_unix_at(UnixSeconds(STAMP), 0);
    assert_eq!(clock.h_m_s_sleep_duration_at(0, ONE_SECOND), (10, 13, 20, ONE_SECOND));
    clock.add_assign(ONE_MINUTE);
    assert_eq!(clock.h_m_s_sleep_duration_at(0, ONE_SECOND), (10, 14, 20, ONE_SECOND));
    assert!(clock.now() < TICKS_IN_ONE_DAY);
}

#[test]
fn digits() {
    assert_eq!(tens_digit(47), '4');
    assert_eq!(ones_digit(47), '7');
    assert_eq!(tens_hours(12), '1');
    assert_eq!(tens_hours(9), ' ');
}

#[test]
fn led4_renders() {
    let time = 10 * ONE_HOUR + 7 * ONE_MINUTE + 42 * ONE_SECOND;
    assert_eq!(
        ClockLed4State::HoursMinutes.render_time(time),
        (BlinkState::Solid, ['1', '0', '0', '7'], 18 * ONE_SECOND)
    );
    assert_eq!(
        ClockLed4State::MinutesSeconds.render_time(time),
        (BlinkState::Solid, ['0', '7', '4', '2'], ONE_SECOND)
    );
    assert_eq!(
        ClockLed4State::EditUtcOffset.render_time(3 * ONE_HOUR),
        (BlinkState::BlinkingAndOn, [' ', '3', '0', '0'], EDIT_BLINK_DURATION)
    );
    assert_eq!(
        ClockLed4State::AccessPointSetup.render_time(0),
        (BlinkState::BlinkingAndOn, ['C', 'O', 'n', 'n'], EDIT_BLINK_DURATION)
    );
    assert_eq!(
        ClockLed4State::Connecting.render_time(0),
        (BlinkState::Solid, ['\'', '\'', '\'', '\''], CONNECTING_FRAME_DURATION)
    );
    assert_eq!(ClockLed4State::Connecting.render_time(5 * CONNECTING_FRAME_DURATION).1, ['*', '_', '_', '_']);
    assert_eq!(ClockLed4State::Connecting.render_time(9 * CONNECTING_FRAME_DURATION).1, ['\'', '\'', '\'', '"']);
}

#[test]
fn led4_render_at_uses_clock() {
    let mut clock = Led4ClockTime::new(0, mirror());
    clock.set_from_unix_at(UnixSeconds(STAMP), 0);
    assert_eq!(ClockLed4State::HoursMinutes.render_at(&clock, 0).1, ['1', '0', '1', '3']);
}

#[test]
fn led4_state_machine() {
    let start = ClockLed4State::default();
    assert_eq!(start, ClockLed4State::HoursMinutes);
    let short = ClockLed4Event::Press(PressDuration::Short);
    let long = ClockLed4Event::Press(PressDuration::Long);
    assert_eq!(start.next(short), (ClockLed4State::MinutesSeconds, ClockLed4Effect::Nothing));
    assert_eq!(ClockLed4State::MinutesSeconds.next(short), (ClockLed4State::HoursMinutes, ClockLed4Effect::Nothing));
    assert_eq!(start.next(long), (ClockLed4State::EditUtcOffset, ClockLed4Effect::Nothing));
    assert_eq!(
        ClockLed4State::EditUtcOffset.next(short),
        (ClockLed4State::EditUtcOffset, ClockLed4Effect::AdvanceUtcOffset)
    );
    assert_eq!(ClockLed4State::EditUtcOffset.next(long), (ClockLed4State::HoursMinutes, ClockLed4Effect::Nothing));
    let synced = ClockLed4Event::SyncSucceeded(UnixSeconds(STAMP));
    assert_eq!(
        ClockLed4State::Connecting.next(synced),
        (ClockLed4State::HoursMinutes, ClockLed4Effect::SetTime(UnixSeconds(STAMP)))
    );
    assert_eq!(
        ClockLed4State::MinutesSeconds.next(synced),
        (ClockLed4State::MinutesSeconds, ClockLed4Effect::SetTime(UnixSeconds(STAMP)))
    );
    assert_eq!(
        ClockLed4State::Connecting.next(ClockLed4Event::ConnectTimedOut),
        (ClockLed4State::AccessPointSetup, ClockLed4Effect::Nothing)
    );
    assert_eq!(
        ClockLed4State::AccessPointSetup.next(ClockLed4Event::SyncFailed),
        (ClockLed4State::AccessPointSetup, ClockLed4Effect::Nothing)
    );
}

#[test]
fn connect_deadline_and_time_left() {
    assert_eq!(connect_deadline(5), 5 + CONNECT_TIMEOUT);
    assert_eq!(connect_deadline(u64::MAX - 1), u64::MAX);
    assert_eq!(connect_time_left(100, 40), Some(60));
    assert_eq!(connect_time_left(100, 100), None);
}

#[test]
fn led4_commands() {
    let mut clock = Led4ClockTime::new(0, mirror());
    let mut state = ClockLed4State::HoursMinutes;
    ClockLed4Command::SetState(ClockLed4State::Connecting).apply_at(&mut clock, &mut state, 0);
    assert_eq!(state, ClockLed4State::Connecting);
    ClockLed4Command::SetTimeFromUnix(UnixSeconds(STAMP)).apply_at(&mut clock, &mut state, 0);
    assert_eq!(clock.h_m_s_sleep_duration_at(0, ONE_SECOND).1, 13);
    ClockLed4Command::ResetSeconds.apply_at(&mut clock, &mut state, 0);
    assert_eq!(clock.h_m_s_sleep_duration_at(0, ONE_SECOND), (10, 14, 0, ONE_SECOND));
    ClockLed4Command::AdjustClockTime(ONE_HOUR).apply_at(&mut clock, &mut state, 0);
    assert_eq!(clock.h_m_s_sleep_duration_at(0, ONE_SECOND).0, 11);
    ClockLed4Command::AdjustUtcOffsetHours(-2).apply_at(&mut clock, &mut state, 0);
    assert_eq!(clock.utc_offset_minutes(), -120);
    assert_eq!(clock.h_m_s_sleep_duration_at(0, ONE_SECOND).0, 9);
    ClockLed4Command::SetUtcOffsetMinutes(30).apply_at(&mut clock, &mut state, 0);
    assert_eq!(clock.utc_offset_minutes(), 30);
    assert_eq!(clock.h_m_s_sleep_duration_at(0, ONE_SECOND).0, 9);
    assert_eq!(state, ClockLed4State::Connecting);
}

#[test]
fn twelve_hour_dial() {
    assert_eq!(h12_m_s_of(0, 5, 6), (12, 5, 6));
    assert_eq!(h12_m_s_of(12, 0, 0), (12, 0, 0));
    assert_eq!(h12_m_s_of(13, 1, 2), (1, 1, 2));
    assert_eq!(h12_m_s_of(23, 59, 59), (11, 59, 59));
    let date_time = time::OffsetDateTime::from_unix_timestamp(STAMP).unwrap();
    assert_eq!(h12_m_s(&date_time), (10, 13, 20));
}

#[test]
fn unix_time_from_boot() {
    assert_eq!(utc_now_seconds(0, 100), None);
    assert_eq!(utc_now_seconds(STAMP, 100), Some(STAMP + 100));
    assert_eq!(utc_now_seconds(i64::MAX - 1, 5), Some(i64::MAX));
    assert_eq!(boot_unix_seconds(STAMP, 100), STAMP - 100);
    assert_eq!(boot_unix_seconds(i64::MIN + 1, 5), i64::MIN);
    assert_eq!(uptime_seconds(2_500_000), 2);
}

#[test]
fn tick_waits() {
    assert_eq!(next_tick_wait(0, 0), None);
    assert_eq!(next_tick_wait(0, 1000), Some(1_000_000));
    assert_eq!(next_tick_wait(250_000, 1000), Some(750_000));
}

#[test]
fn offset_time_reads_timer_plus_offset() {
    let mut clock = OffsetTime::from_millis(3_600_000);
    assert_eq!(clock.offset, ONE_HOUR);
    assert_eq!(clock.now_at(5), ONE_HOUR + 5);
    assert_eq!(clock.h_m_s_sleep_duration_at(30 * ONE_SECOND, ONE_MINUTE), (1, 0, 30, 30 * ONE_SECOND));
    clock.add_assign(ONE_MINUTE);
    assert_eq!(clock.h_m_s_sleep_duration_at(0, ONE_SECOND), (1, 1, 0, ONE_SECOND));
    assert_eq!(OffsetTime::till_next(7, 5), 3);
    assert!(clock.now().unwrap() >= clock.offset);
    let (h, m, s, wait) = clock.h_m_s_sleep_duration(ONE_SECOND).unwrap();
    assert!((1..=12).contains(&h) && m < 60 && s < 60 && wait > 0 && wait <= ONE_SECOND);
}

#[test]
fn dial_time_wraps_past_a_day() {
    assert_eq!(dial_time(25 * ONE_HOUR, ONE_HOUR), (1, 0, 0, ONE_HOUR));
}

#[test]
fn adjustable_clock_counts_from_start() {
    let mut clock = AdjustableClock::started_at(10 * ONE_SECOND);
    assert_eq!(clock.now_at(15 * ONE_SECOND), 5 * ONE_SECOND);
    clock.add_assign(2 * ONE_HOUR);
    assert_eq!(clock.h_m_s_update_at(15 * ONE_SECOND, ONE_SECOND), (2, 0, 5, ONE_SECOND));
    let fresh = AdjustableClock::default();
    assert_eq!(fresh.offset, 0);
    assert!(fresh.now().is_some());
    assert!(fresh.h_m_s_update(ONE_SECOND).is_some());
}

#[test]
fn time_sync_events() {
    assert_eq!(UnixSeconds(42).as_i64(), 42);
    let event = TimeSyncEvent::Success { unix_seconds: UnixSeconds(STAMP) };
    match event {
        TimeSyncEvent::Success { unix_seconds } => assert_eq!(unix_seconds, UnixSeconds(STAMP)),
        TimeSyncEvent::Failed(_) => panic!("expected success"),
    }
}

#[test]
fn led4_commands_check_their_range() {
    let clock = Led4ClockTime::new(0, mirror());
    assert!(ClockLed4Command::SetTimeFromUnix(UnixSeconds(STAMP)).can_apply(&clock));
    assert!(!ClockLed4Command::SetTimeFromUnix(UnixSeconds(-1)).can_apply(&clock));
    assert!(ClockLed4Command::SetTimeFromUnix(UnixSeconds(-86_400)).can_apply(&clock));
    assert!(ClockLed4Command::AdjustUtcOffsetHours(-13).can_apply(&clock));
    assert!(ClockLed4Command::ResetSeconds.can_apply(&clock));
    let east = Led4ClockTime::new(14 * 60, mirror());
    assert_eq!(east.offset_in_ticks(), 12 * ONE_HOUR);
    assert!(ClockLed4Command::AdjustUtcOffsetHours(1).can_apply(&east));
    assert!(ClockLed4Command::AdjustUtcOffsetHours(-1).can_apply(&east));
    assert!(!ClockLed4Command::AdjustUtcOffsetHours(i32::MAX).can_apply(&clock));
    let far = Led4ClockTime::new(i32::MAX, mirror());
    assert!(!ClockLed4Command::AdjustUtcOffsetHours(0).can_apply(&far));
}

#[test]
fn utc_plus_14_wraps_to_utc_minus_12() {
    let mut clock = Led4ClockTime::new(0, mirror());
    clock.set_from_unix_at(UnixSeconds(STAMP), 0);
    clock.set_utc_offset_minutes(14 * 60);
    let before = clock.now_at(7 * ONE_SECOND);
    clock.adjust_utc_offset_hours(1);
    assert_eq!(clock.utc_offset_minutes(), -12 * 60);
    assert_eq!(clock.now_at(7 * ONE_SECOND), (before + 22 * ONE_HOUR) % TICKS_IN_ONE_DAY);
    assert!(clock.offset_in_ticks() < TICKS_IN_ONE_DAY);
}

#[test]
fn local_time_follows_boot_time_uptime_and_offset() {
    // 2025-11-20 14:00:00 UTC is 07:00:00 at UTC-7 and 06:00:00 at UTC-8.
    assert_eq!(h12_m_s(&now_local(1_763_647_200, 0, -420)), (7, 0, 0));
    assert_eq!(h12_m_s(&now_local(1_763_647_200 - 90, 90, -480)), (6, 0, 0));
    // One second before the epoch, in UTC.
    assert_eq!(h12_m_s(&now_local(-1, 0, 0)), (11, 59, 59));
    // Not set: midnight UTC, whatever the offset.
    assert_eq!(h12_m_s(&now_local(0, 5_000, 330)), (12, 0, 0));
    // 23:30 UTC at UTC+1 is 00:30 the next day.
    assert_eq!(h12_m_s(&now_local(84_600, 0, 60)), (12, 30, 0));
}
