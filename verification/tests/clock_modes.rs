use std::sync::atomic::AtomicI32;

use device_kit::blinkable_display::BlinkMode;
use device_kit::button::PressDuration;
use device_kit::clock_4led::Clock4LedCommand;
use device_kit::clock_led4::time::ClockTime as Led4ClockTime;
use device_kit::clock_state::{ClockEffect, ClockEvent, ClockState};
use device_kit::clock_time::{ClockTime, ONE_DAY, ONE_HOUR, ONE_MINUTE, ONE_SECOND};
use device_kit::cwf::blink_state::BlinkState;
use device_kit::cwf::clock_state::{
    ClockEffect as CwfEffect, ClockEvent as CwfEvent, ClockState as CwfState, ConfirmClearChoice,
    CLEARING_DONE_DURATION, CONFIRM_CLEAR_DURATION,
};
use device_kit::time_sync::UnixSeconds;

const SHORT: ClockEvent = ClockEvent::Press(PressDuration::Short);
const LONG: ClockEvent = ClockEvent::Press(PressDuration::Long);

#[test]
fn setting_walks_the_fields() {
    let mut state = ClockState::default();
    assert_eq!(state, ClockState::HoursMinutes);
    assert_eq!(state.run_and_next(SHORT), (ClockState::MinutesSeconds, ClockEffect::Nothing));
    state = state.run_and_next(LONG).0;
    assert_eq!(state, ClockState::ShowSeconds);
    assert_eq!(state.run_and_next(LONG), (ClockState::EditSeconds, ClockEffect::Nothing));
    assert_eq!(
        ClockState::EditSeconds.run_and_next(ClockEvent::ButtonDown),
        (ClockState::ShowSeconds, ClockEffect::ResetSeconds)
    );
    state = state.run_and_next(SHORT).0;
    assert_eq!(state, ClockState::ShowMinutes);
    assert_eq!(
        ClockState::EditMinutes.run_and_next(ClockEvent::EditTick),
        (ClockState::EditMinutes, ClockEffect::AdjustOffset(ONE_MINUTE))
    );
    assert_eq!(
        ClockState::EditMinutes.run_and_next(ClockEvent::ButtonDown),
        (ClockState::ShowMinutes, ClockEffect::Nothing)
    );
    state = state.run_and_next(SHORT).0;
    assert_eq!(state, ClockState::ShowHours);
    assert_eq!(
        ClockState::EditHours.run_and_next(ClockEvent::EditTick),
        (ClockState::EditHours, ClockEffect::AdjustOffset(ONE_HOUR))
    );
    assert_eq!(state.run_and_next(SHORT), (ClockState::HoursMinutes, ClockEffect::Nothing));
}

#[test]
fn set_by_hand_clock_renders() {
    let time = 13 * ONE_HOUR + 4 * ONE_MINUTE + 56 * ONE_SECOND;
    assert_eq!(ClockState::HoursMinutes.render_time(time), ([' ', '1', '0', '4'], BlinkMode::Solid, 4 * ONE_SECOND));
    assert_eq!(ClockState::MinutesSeconds.render_time(time), (['0', '4', '5', '6'], BlinkMode::Solid, ONE_SECOND));
    assert_eq!(ClockState::ShowSeconds.render_time(time), ([' ', '5', '6', ' '], BlinkMode::BlinkingAndOn, ONE_SECOND));
    assert_eq!(ClockState::EditSeconds.render_time(time), ([' ', '0', '0', ' '], BlinkMode::Solid, ONE_DAY));
    assert_eq!(
        ClockState::ShowMinutes.render_time(time),
        ([' ', ' ', '0', '4'], BlinkMode::BlinkingAndOn, 4 * ONE_SECOND)
    );
    assert_eq!(ClockState::EditMinutes.render_time(time).1, BlinkMode::Solid);
    assert_eq!(
        ClockState::ShowHours.render_time(time),
        ([' ', '1', ' ', ' '], BlinkMode::BlinkingAndOn, ONE_HOUR - 4 * ONE_MINUTE - 56 * ONE_SECOND)
    );
    let clock = ClockTime::new(0);
    assert_eq!(ClockState::HoursMinutes.render_at(&clock, 0).0, ['1', '2', '0', '0']);
}

#[test]
fn cwf_offset_editing_and_clearing() {
    let short = CwfEvent::Press(PressDuration::Short);
    let long = CwfEvent::Press(PressDuration::Long);
    let start = CwfState::default();
    assert_eq!(start.execute(long), (CwfState::EditUtcOffset { modified: false }, CwfEffect::Nothing));
    assert_eq!(
        CwfState::EditUtcOffset { modified: false }.execute(short),
        (CwfState::EditUtcOffset { modified: true }, CwfEffect::AdvanceUtcOffset)
    );
    assert_eq!(CwfState::EditUtcOffset { modified: true }.execute(long), (CwfState::HoursMinutes, CwfEffect::Nothing));
    assert_eq!(
        CwfState::EditUtcOffset { modified: false }.execute(long),
        (CwfState::ConfirmClear(ConfirmClearChoice::Keep), CwfEffect::Nothing)
    );
    assert_eq!(
        CwfState::ConfirmClear(ConfirmClearChoice::Keep).execute(short),
        (CwfState::ConfirmClear(ConfirmClearChoice::Clear), CwfEffect::Nothing)
    );
    assert_eq!(
        CwfState::ConfirmClear(ConfirmClearChoice::Keep).execute(long),
        (CwfState::HoursMinutes, CwfEffect::Nothing)
    );
    assert_eq!(
        CwfState::ConfirmClear(ConfirmClearChoice::Clear).execute(long),
        (CwfState::ConfirmedClear, CwfEffect::Nothing)
    );
    assert_eq!(ConfirmClearChoice::Keep.toggle(), ConfirmClearChoice::Clear);
    assert_eq!(ConfirmClearChoice::Clear.toggle(), ConfirmClearChoice::Keep);
}

#[test]
fn cwf_sync_and_setup() {
    let synced = CwfEvent::SyncSucceeded(UnixSeconds(1_700_000_000));
    assert_eq!(
        CwfState::Connecting.execute(synced),
        (CwfState::HoursMinutes, CwfEffect::SetTime(UnixSeconds(1_700_000_000)))
    );
    assert_eq!(CwfState::Connecting.execute(CwfEvent::SyncFailed), (CwfState::Connecting, CwfEffect::Nothing));
    assert_eq!(
        CwfState::AccessPointSetup.execute(CwfEvent::Immediate),
        (CwfState::HoursMinutes, CwfEffect::Nothing)
    );
    assert_eq!(CwfState::ClearingDone.execute(CwfEvent::Immediate), (CwfState::ClearingDone, CwfEffect::Nothing));
}

#[test]
fn cwf_renders() {
    let time = 9 * ONE_HOUR + 30 * ONE_MINUTE;
    assert_eq!(CwfState::HoursMinutes.render_time(time), (BlinkState::Solid, [' ', '9', '3', '0'], ONE_MINUTE));
    assert_eq!(
        CwfState::ConfirmClear(ConfirmClearChoice::Keep).render_time(time),
        (BlinkState::Solid, ['-', '-', '-', '-'], CONFIRM_CLEAR_DURATION)
    );
    assert_eq!(
        CwfState::ConfirmClear(ConfirmClearChoice::Clear).render_time(time),
        (BlinkState::BlinkingAndOn, ['C', 'L', 'r', ' '], CONFIRM_CLEAR_DURATION)
    );
    assert_eq!(
        CwfState::ClearingDone.render_time(time),
        (BlinkState::Solid, ['D', 'O', 'N', 'E'], CLEARING_DONE_DURATION)
    );
    assert_eq!(CwfState::AccessPointSetup.render_time(time).1, ['C', 'O', 'n', 'n']);
    let clock = Led4ClockTime::new(0, Box::leak(Box::new(AtomicI32::new(0))));
    assert_eq!(CwfState::MinutesSeconds.render_at(&clock, 5 * ONE_SECOND).1, ['0', '0', '0', '5']);
}

#[test]
fn clock_4led_commands() {
    let mut clock = Led4ClockTime::new(60, Box::leak(Box::new(AtomicI32::new(0))));
    let mut state = CwfState::HoursMinutes;
    Clock4LedCommand::SetState(CwfState::Connecting).apply_at(&mut clock, &mut state, 0);
    assert_eq!(state, CwfState::Connecting);
    Clock4LedCommand::SetTimeFromUnix(UnixSeconds(1_700_000_000)).apply_at(&mut clock, &mut state, 0);
    assert_eq!(clock.h_m_s_sleep_duration_at(0, ONE_SECOND), (11, 13, 20, ONE_SECOND));
    Clock4LedCommand::ResetSeconds.apply_at(&mut clock, &mut state, 0);
    assert_eq!(clock.h_m_s_sleep_duration_at(0, ONE_SECOND), (11, 14, 0, ONE_SECOND));
    Clock4LedCommand::AdjustClockTime(ONE_MINUTE).apply_at(&mut clock, &mut state, 0);
    assert_eq!(clock.h_m_s_sleep_duration_at(0, ONE_SECOND).1, 15);
    Clock4LedCommand::AdjustUtcOffsetHours(1).apply_at(&mut clock, &mut state, 0);
    assert_eq!(clock.utc_offset_minutes(), 120);
    assert_eq!(clock.h_m_s_sleep_duration_at(0, ONE_SECOND).0, 12);
    assert_eq!(state, CwfState::Connecting);
}

#[test]
fn clock_4led_commands_check_their_range() {
    let clock = Led4ClockTime::new(-60, Box::leak(Box::new(AtomicI32::new(0))));
    assert!(Clock4LedCommand::SetTimeFromUnix(UnixSeconds(3_600)).can_apply(&clock));
    assert!(!Clock4LedCommand::SetTimeFromUnix(UnixSeconds(3_599)).can_apply(&clock));
    assert!(Clock4LedCommand::AdjustUtcOffsetHours(2).can_apply(&clock));
    assert!(Clock4LedCommand::SetState(CwfState::Connecting).can_apply(&clock));
}
