//! Decisions of the device loops that show static frames and looping animations on
//! LED strips and 2D displays.
//!
//! The loop around the library waits for a command (or, while animating, for a
//! command or the end of the current frame's duration), asks [`animation_loop_step`]
//! what to do, writes the chosen frame to the LEDs, signals completion to the caller
//! that sent the command, and carries the new state into the next round.

use vstd::prelude::*;

verus! {

/// What the device loop is doing.
#[derive(Clone, Copy, Debug, PartialEq, Eq, Structural)]
pub enum LoopState {
    /// Showing a static frame (or nothing yet) and waiting for a command.
    Idle,
    /// Playing frame `index` of an animation of `frame_count` frames. `restarts` more
    /// animations may interrupt this one and start; one beyond that is dropped.
    Animating { frame_count: usize, index: usize, restarts: u8 },
}

/// What woke the device loop.
#[derive(Clone, Copy, Debug, PartialEq, Eq, Structural)]
pub enum LoopEvent {
    /// A command to show a static frame.
    ShowStatic,
    /// A command to loop an animation of `frame_count` frames.
    Animate { frame_count: usize },
    /// The current animation frame's duration has passed.
    FrameElapsed,
}

/// What the device loop does next.
#[derive(Clone, Copy, Debug, PartialEq, Eq, Structural)]
pub enum LoopAction {
    /// Write the static frame, then signal completion.
    ShowStaticThenSignal,
    /// Signal completion (the animation has started), then write frame `index` of it.
    SignalThenShowFrame(usize),
    /// Write animation frame `index`.
    ShowFrame(usize),
    /// Drop the command: nothing is written and nobody is signalled.
    Drop,
}

/// The animation position is within the animation.
pub open spec fn loop_state_wf(state: LoopState) -> bool {
    match state {
        LoopState::Idle => true,
        LoopState::Animating { frame_count, index, .. } => index < frame_count,
    }
}

/// Events that the loop can receive in `state`: animations have at least one frame
/// (sending an empty one is refused before it reaches the loop), and frame timers run
/// only while animating.
pub open spec fn loop_event_ok(state: LoopState, event: LoopEvent) -> bool {
    match event {
        LoopEvent::ShowStatic => true,
        LoopEvent::Animate { frame_count } => frame_count > 0,
        LoopEvent::FrameElapsed => state is Animating,
    }
}

/// The next state and action. A static frame always wins and leaves the loop idle. An
/// animation starts from idle with `restarts_on_start` restarts; while animating, it
/// starts only if restarts are left (one fewer afterwards) and is dropped otherwise,
/// leaving the loop idle. A frame timer moves to the next frame, wrapping around.
pub open spec fn loop_step(state: LoopState, event: LoopEvent, restarts_on_start: u8) -> (LoopState, LoopAction) {
    match event {
        LoopEvent::ShowStatic => (LoopState::Idle, LoopAction::ShowStaticThenSignal),
        LoopEvent::Animate { frame_count } => match state {
            LoopState::Idle => (
                LoopState::Animating { frame_count, index: 0, restarts: restarts_on_start },
                LoopAction::SignalThenShowFrame(0),
            ),
            LoopState::Animating { restarts, .. } => if restarts > 0 {
                (
                    LoopState::Animating { frame_count, index: 0, restarts: (restarts - 1) as u8 },
                    LoopAction::SignalThenShowFrame(0),
                )
            } else {
                (LoopState::Idle, LoopAction::Drop)
            },
        },
        LoopEvent::FrameElapsed => match state {
            LoopState::Animating { frame_count, index, restarts } => {
                let next = ((index + 1) % (frame_count as int)) as usize;
                (LoopState::Animating { frame_count, index: next, restarts }, LoopAction::ShowFrame(next))
            },
            LoopState::Idle => (LoopState::Idle, LoopAction::Drop),
        },
    }
}

/// One round of a device loop; see [`loop_step`]. Two-dimensional displays start
/// animations with one restart, plain strips with none.
pub fn animation_loop_step(state: LoopState, event: LoopEvent, restarts_on_start: u8) -> (next: (
    LoopState,
    LoopAction,
))
    requires
        loop_state_wf(state),
        loop_event_ok(state, event),
    ensures
        next == loop_step(state, event, restarts_on_start),
        loop_state_wf(next.0),
{
    match event {
        LoopEvent::ShowStatic => (LoopState::Idle, LoopAction::ShowStaticThenSignal),
        LoopEvent::Animate { frame_count } => match state {
            LoopState::Idle => (
                LoopState::Animating { frame_count, index: 0, restarts: restarts_on_start },
                LoopAction::SignalThenShowFrame(0),
            ),
            LoopState::Animating { restarts, .. } => {
                if restarts > 0 {
                    (
                        LoopState::Animating { frame_count, index: 0, restarts: restarts - 1 },
                        LoopAction::SignalThenShowFrame(0),
                    )
                } else {
                    (LoopState::Idle, LoopAction::Drop)
                }
            },
        },
        LoopEvent::FrameElapsed => match state {
            LoopState::Animating { frame_count, index, restarts } => {
                let next = (index + 1) % frame_count;
                (LoopState::Animating { frame_count, index: next, restarts }, LoopAction::ShowFrame(next))
            },
            LoopState::Idle => (LoopState::Idle, LoopAction::Drop),
        },
    }
}

/// Every state the loop reaches is well formed, and every frame it is told to show lies
/// within the animation it is playing.
pub proof fn loop_step_keeps_frames_in_range(state: LoopState, event: LoopEvent, restarts_on_start: u8)
    requires
        loop_state_wf(state),
        loop_event_ok(state, event),
    ensures
        loop_state_wf(loop_step(state, event, restarts_on_start).0),
        loop_step(state, event, restarts_on_start).1 matches LoopAction::ShowFrame(i) ==> (loop_step(
            state,
            event,
            restarts_on_start,
        ).0 matches LoopState::Animating { frame_count, .. } && i < frame_count),
        loop_step(state, event, restarts_on_start).1 matches LoopAction::SignalThenShowFrame(i) ==> i
            == 0,
{
}

/// A static frame is always shown and acknowledged, whatever the loop was doing.
pub proof fn static_frame_always_acknowledged(state: LoopState, restarts_on_start: u8)
    ensures
        loop_step(state, LoopEvent::ShowStatic, restarts_on_start) == (
            LoopState::Idle,
            LoopAction::ShowStaticThenSignal,
        ),
{
}

/// Without interruption an animation of `n` frames returns to its first frame after `n`
/// frame timers.
pub proof fn animation_cycles(frame_count: usize, index: usize, restarts: u8, restarts_on_start: u8)
    requires
        index < frame_count,
    ensures
        loop_step(
            LoopState::Animating { frame_count, index, restarts },
            LoopEvent::FrameElapsed,
            restarts_on_start,
        ).0 == (LoopState::Animating {
            frame_count,
            index: (if index + 1 == frame_count { 0 } else { index + 1 }) as usize,
            restarts,
        }),
{
    if index + 1 == frame_count {
        vstd::arithmetic::div_mod::lemma_mod_self_0(frame_count as int);
    } else {
        vstd::arithmetic::div_mod::lemma_small_mod((index + 1) as nat, frame_count as nat);
    }
}

/// An animation can be sent: it has at least one frame, no more than `max_frames`, and
/// every frame lasts a positive time.
pub open spec fn animation_ok(durations: Seq<u64>, max_frames: int) -> bool {
    &&& 0 < durations.len() <= max_frames
    &&& forall|i: int| 0 <= i < durations.len() ==> #[trigger] durations[i] > 0
}

/// Whether an animation with these frame durations (in ticks) can be sent to a device
/// that holds at most `max_frames` frames; sending one that cannot is a programming
/// error that the device refuses loudly.
pub fn animation_accepted(durations: &[u64], max_frames: usize) -> (accepted: bool)
    ensures
        accepted == animation_ok(durations@, max_frames as int),
{
    if durations.len() == 0 || durations.len() > max_frames {
        return false;
    }
    let mut i: usize = 0;
    while i < durations.len()
        invariant
            i <= durations@.len(),
            forall|j: int| 0 <= j < i ==> #[trigger] durations@[j] > 0,
        decreases durations@.len() - i,
    {
        if durations[i] == 0 {
            return false;
        }
        i += 1;
    }
    true
}

} // verus!
