//! Push buttons: how they are wired, and timing a press as short or long.

use vstd::prelude::*;

verus! {

/// Debounce delay after each edge, in ticks (10 ms).
pub const BUTTON_DEBOUNCE_DELAY: u64 = 10_000;

/// A press held this long is a long press, in ticks (500 ms).
pub const LONG_PRESS_DURATION: u64 = 500_000;

/// Interval between polls of the pin while waiting for an edge, in ticks (1 ms).
pub const BUTTON_POLL_INTERVAL: u64 = 1_000;

/// How the button is wired.
#[derive(Clone, Copy, Debug, PartialEq, Eq, Structural)]
pub enum ButtonConnection {
    /// The button connects the pin to the supply voltage (pulled down when open).
    ToVoltage,
    /// The button connects the pin to ground (pulled up when open).
    ToGround,
}

/// How long the button was held.
#[derive(Clone, Copy, Debug, PartialEq, Eq, Structural)]
pub enum PressDuration {
    Short,
    Long,
}

impl ButtonConnection {
    /// The pin's pull resistor pulls up (rather than down): a button to ground needs a
    /// pull-up, one to the supply a pull-down.
    pub fn pull_up(self) -> (up: bool)
        ensures
            up == (self == ButtonConnection::ToGround),
    {
        match self {
            ButtonConnection::ToVoltage => false,
            ButtonConnection::ToGround => true,
        }
    }

    /// The button is pressed when the pin reads `high`: a high level for a button to the
    /// supply, a low level for one to ground.
    pub fn is_pressed(self, high: bool) -> (pressed: bool)
        ensures
            pressed == match self {
                ButtonConnection::ToVoltage => high,
                ButtonConnection::ToGround => !high,
            },
    {
        match self {
            ButtonConnection::ToVoltage => high,
            ButtonConnection::ToGround => !high,
        }
    }
}

/// The steps of timing one press.
#[derive(Clone, Copy, Debug, PartialEq, Eq, Structural)]
pub enum PressPhase {
    /// Waiting for the button to be released (a press in progress is not counted).
    WaitingForRelease,
    /// Waiting out the debounce delay after the release.
    DebouncingRelease,
    /// Waiting for the button to go down.
    WaitingForPress,
    /// Waiting out the debounce delay after the press.
    DebouncingPress,
    /// Timing the press: released before the long-press duration, or not.
    Timing,
}

/// What the loop waits for next.
#[derive(Clone, Copy, Debug, PartialEq, Eq, Structural)]
pub enum PressWait {
    /// Poll the pin after this many ticks.
    Poll(u64),
    /// Sleep this many ticks.
    Sleep(u64),
    /// Poll the pin until it is released, but for at most this many ticks.
    PollUntil(u64),
}

/// What woke the loop.
#[derive(Clone, Copy, Debug, PartialEq, Eq, Structural)]
pub enum PressEvent {
    /// The pin was read: the button is pressed or not.
    Level { pressed: bool },
    /// A sleep or the long-press limit ran out.
    Elapsed,
}

/// The outcome of one step of timing a press.
#[derive(Clone, Copy, Debug, PartialEq, Eq, Structural)]
pub enum PressStep {
    /// Go on in this phase, waiting as told.
    Continue(PressPhase, PressWait),
    /// The press is over.
    Done(PressDuration),
}

/// What the loop waits for in each phase.
pub open spec fn press_wait(phase: PressPhase) -> PressWait {
    match phase {
        PressPhase::WaitingForRelease => PressWait::Poll(BUTTON_POLL_INTERVAL),
        PressPhase::DebouncingRelease => PressWait::Sleep(BUTTON_DEBOUNCE_DELAY),
        PressPhase::WaitingForPress => PressWait::Poll(BUTTON_POLL_INTERVAL),
        PressPhase::DebouncingPress => PressWait::Sleep(BUTTON_DEBOUNCE_DELAY),
        PressPhase::Timing => PressWait::PollUntil(LONG_PRESS_DURATION),
    }
}

/// One step of timing a press: wait for the button to be up, debounce, wait for it to
/// go down, debounce, then it is a short press if released before the long-press
/// duration and a long press otherwise.
pub open spec fn press_step_spec(phase: PressPhase, event: PressEvent) -> PressStep {
    let next = |p: PressPhase| PressStep::Continue(p, press_wait(p));
    match (phase, event) {
        (PressPhase::WaitingForRelease, PressEvent::Level { pressed }) => if pressed {
            next(PressPhase::WaitingForRelease)
        } else {
            next(PressPhase::DebouncingRelease)
        },
        (PressPhase::DebouncingRelease, PressEvent::Elapsed) => next(PressPhase::WaitingForPress),
        (PressPhase::WaitingForPress, PressEvent::Level { pressed }) => if pressed {
            next(PressPhase::DebouncingPress)
        } else {
            next(PressPhase::WaitingForPress)
        },
        (PressPhase::DebouncingPress, PressEvent::Elapsed) => next(PressPhase::Timing),
        (PressPhase::Timing, PressEvent::Level { pressed }) => if pressed {
            next(PressPhase::Timing)
        } else {
            PressStep::Done(PressDuration::Short)
        },
        (PressPhase::Timing, PressEvent::Elapsed) => PressStep::Done(PressDuration::Long),
        _ => next(phase),
    }
}

/// The phase a press starts in, and what to wait for first.
pub fn press_start() -> (start: (PressPhase, PressWait))
    ensures
        start == (PressPhase::WaitingForRelease, press_wait(PressPhase::WaitingForRelease)),
{
    (PressPhase::WaitingForRelease, PressWait::Poll(BUTTON_POLL_INTERVAL))
}

/// What to wait for in `phase`.
pub fn wait_in(phase: PressPhase) -> (wait: PressWait)
    ensures
        wait == press_wait(phase),
{
    match phase {
        PressPhase::WaitingForRelease => PressWait::Poll(BUTTON_POLL_INTERVAL),
        PressPhase::DebouncingRelease => PressWait::Sleep(BUTTON_DEBOUNCE_DELAY),
        PressPhase::WaitingForPress => PressWait::Poll(BUTTON_POLL_INTERVAL),
        PressPhase::DebouncingPress => PressWait::Sleep(BUTTON_DEBOUNCE_DELAY),
        PressPhase::Timing => PressWait::PollUntil(LONG_PRESS_DURATION),
    }
}

/// One step of timing a press; see [`press_step_spec`]. Events that cannot happen in a
/// phase (a level during a sleep) leave it unchanged.
pub fn press_step(phase: PressPhase, event: PressEvent) -> (step: PressStep)
    ensures
        step == press_step_spec(phase, event),
{
    match (phase, event) {
        (PressPhase::WaitingForRelease, PressEvent::Level { pressed }) => {
            if pressed {
                PressStep::Continue(phase, wait_in(phase))
            } else {
                PressStep::Continue(PressPhase::DebouncingRelease, wait_in(PressPhase::DebouncingRelease))
            }
        },
        (PressPhase::DebouncingRelease, PressEvent::Elapsed) => PressStep::Continue(
            PressPhase::WaitingForPress,
            wait_in(PressPhase::WaitingForPress),
        ),
        (PressPhase::WaitingForPress, PressEvent::Level { pressed }) => {
            if pressed {
                PressStep::Continue(PressPhase::DebouncingPress, wait_in(PressPhase::DebouncingPress))
            } else {
                PressStep::Continue(phase, wait_in(phase))
            }
        },
        (PressPhase::DebouncingPress, PressEvent::Elapsed) => PressStep::Continue(
            PressPhase::Timing,
            wait_in(PressPhase::Timing),
        ),
        (PressPhase::Timing, PressEvent::Level { pressed }) => {
            if pressed {
                PressStep::Continue(phase, wait_in(phase))
            } else {
                PressStep::Done(PressDuration::Short)
            }
        },
        (PressPhase::Timing, PressEvent::Elapsed) => PressStep::Done(PressDuration::Long),
        _ => PressStep::Continue(phase, wait_in(phase)),
    }
}

/// A press is only ever reported after the button was seen down, and it is long exactly
/// when the long-press duration ran out before the release.
pub proof fn press_reported_only_while_timing(phase: PressPhase, event: PressEvent)
    ensures
        press_step_spec(phase, event) is Done ==> phase == PressPhase::Timing,
        phase == PressPhase::Timing ==> (press_step_spec(phase, event) == PressStep::Done(
            PressDuration::Long,
        ) <==> event == PressEvent::Elapsed),
{
}

/// A press is counted only across a real release and a real press: the phase leaves
/// waiting-for-release only on a reading with the button up, and leaves waiting-for-press
/// only on a reading with the button down; a held button keeps the loop polling where it
/// is, and each debounce is a sleep of `BUTTON_DEBOUNCE_DELAY`.
pub proof fn press_needs_release_then_press(phase: PressPhase, event: PressEvent)
    ensures
        phase == PressPhase::WaitingForRelease && press_step_spec(phase, event) is Continue && press_step_spec(
            phase,
            event,
        )->Continue_0 != PressPhase::WaitingForRelease ==> event == (PressEvent::Level { pressed: false }),
        phase == PressPhase::WaitingForPress && press_step_spec(phase, event) is Continue && press_step_spec(
            phase,
            event,
        )->Continue_0 != PressPhase::WaitingForPress ==> event == (PressEvent::Level { pressed: true }),
        press_step_spec(PressPhase::WaitingForRelease, PressEvent::Level { pressed: true })
            == PressStep::Continue(PressPhase::WaitingForRelease, PressWait::Poll(BUTTON_POLL_INTERVAL)),
        press_step_spec(PressPhase::WaitingForPress, PressEvent::Level { pressed: false })
            == PressStep::Continue(PressPhase::WaitingForPress, PressWait::Poll(BUTTON_POLL_INTERVAL)),
        press_step_spec(PressPhase::WaitingForRelease, PressEvent::Level { pressed: false })
            == PressStep::Continue(PressPhase::DebouncingRelease, PressWait::Sleep(BUTTON_DEBOUNCE_DELAY)),
        press_step_spec(PressPhase::WaitingForPress, PressEvent::Level { pressed: true })
            == PressStep::Continue(PressPhase::DebouncingPress, PressWait::Sleep(BUTTON_DEBOUNCE_DELAY)),
        press_step_spec(PressPhase::DebouncingRelease, PressEvent::Elapsed) == PressStep::Continue(
            PressPhase::WaitingForPress,
            PressWait::Poll(BUTTON_POLL_INTERVAL),
        ),
        press_step_spec(PressPhase::DebouncingPress, PressEvent::Elapsed) == PressStep::Continue(
            PressPhase::Timing,
            PressWait::PollUntil(LONG_PRESS_DURATION),
        ),
        press_step_spec(PressPhase::Timing, PressEvent::Level { pressed: true }) == PressStep::Continue(
            PressPhase::Timing,
            PressWait::PollUntil(LONG_PRESS_DURATION),
        ),
        press_step_spec(PressPhase::Timing, PressEvent::Level { pressed: false }) == PressStep::Done(
            PressDuration::Short,
        ),
{
}

} // verus!
