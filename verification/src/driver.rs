//! The frame driver: the per-frame state machine of the event loop.
//!
//! One cycle per redraw request — `Idle` to `Rendering` to `Presented` and
//! back to `Idle` — with a terminal `Exit` state reached unconditionally on
//! a close-requested or escape-key input.  The decisions live here as pure
//! functions from state and event to next state and action; the unverified
//! loop around the library performs the actions and feeds the events back.

use crate::frame::FrameError;
use vstd::prelude::*;

verus! {

/// The driver's state, one cycle per redraw request plus the terminal
/// state.
#[derive(Clone, Copy, Debug, PartialEq, Eq, Structural)]
pub enum DriverState {
    /// Waiting for the next redraw request.
    Idle,
    /// A frame is being rendered.
    Rendering,
    /// The last frame reached the display.
    Presented,
    /// Terminal: the loop is over and no further frame is presented.
    Exit,
}

/// One input from the window's event source, as the driver consumes it.
#[derive(Clone, Copy, Debug, PartialEq, Eq, Structural)]
pub enum LoopEvent {
    /// The window asks for a frame.
    RedrawRequested,
    /// All pending input events have been dispatched.
    MainEventsCleared,
    /// The window's close button was pressed.
    CloseRequested,
    /// The escape key was pressed.
    EscapePressed,
    /// Any other event; the driver ignores it.
    Other,
}

/// What the loop around the driver must do after a step.
#[derive(Clone, Copy, Debug, PartialEq, Eq, Structural)]
pub enum DriverAction {
    /// Render and present one frame.
    RenderFrame,
    /// Ask the window for a redraw.
    RequestRedraw,
    /// Nothing; wait for the next event.
    NoOp,
    /// Leave the event loop.
    Terminate,
}

/// Whether an event demands the loop's end.
pub open spec fn is_exit_event(e: LoopEvent) -> bool {
    e == LoopEvent::CloseRequested || e == LoopEvent::EscapePressed
}

/// The state after consuming one event: a close or escape input leads to
/// `Exit` from any state, `Exit` absorbs everything, a redraw request
/// starts a cycle, and cleared events close a presented cycle.
pub open spec fn step_state(s: DriverState, e: LoopEvent) -> DriverState {
    if is_exit_event(e) {
        DriverState::Exit
    } else if s == DriverState::Exit {
        DriverState::Exit
    } else {
        match e {
            LoopEvent::RedrawRequested => DriverState::Rendering,
            LoopEvent::MainEventsCleared => if s == DriverState::Presented {
                DriverState::Idle
            } else {
                s
            },
            _ => s,
        }
    }
}

/// The action the loop performs for one event.
pub open spec fn step_action(s: DriverState, e: LoopEvent) -> DriverAction {
    if is_exit_event(e) || s == DriverState::Exit {
        DriverAction::Terminate
    } else {
        match e {
            LoopEvent::RedrawRequested => DriverAction::RenderFrame,
            LoopEvent::MainEventsCleared => DriverAction::RequestRedraw,
            _ => DriverAction::NoOp,
        }
    }
}

/// Consumes one event: returns the next state and the action to perform.
///
/// A close or escape input moves the driver to `Exit` from any state, in
/// this very step.
pub fn step(s: DriverState, e: LoopEvent) -> (r: (DriverState, DriverAction))
    ensures
        r.0 == step_state(s, e),
        r.1 == step_action(s, e),
        is_exit_event(e) ==> r.0 == DriverState::Exit && r.1 == DriverAction::Terminate,
{
    match e {
        LoopEvent::CloseRequested => (DriverState::Exit, DriverAction::Terminate),
        LoopEvent::EscapePressed => (DriverState::Exit, DriverAction::Terminate),
        _ => {
            if s == DriverState::Exit {
                (DriverState::Exit, DriverAction::Terminate)
            } else {
                match e {
                    LoopEvent::RedrawRequested => (DriverState::Rendering, DriverAction::RenderFrame),
                    LoopEvent::MainEventsCleared => {
                        if s == DriverState::Presented {
                            (DriverState::Idle, DriverAction::RequestRedraw)
                        } else {
                            (s, DriverAction::RequestRedraw)
                        }
                    },
                    _ => (s, DriverAction::NoOp),
                }
            }
        },
    }
}

/// The state after a frame render finishes: a presented frame closes the
/// cycle, a failed make-current is fatal, and a failed overlay skips the
/// frame and idles for the next one.
pub open spec fn finish_state(outcome: Result<(), FrameError>) -> DriverState {
    match outcome {
        Ok(()) => DriverState::Presented,
        Err(FrameError::MakeCurrentFailed) => DriverState::Exit,
        Err(FrameError::OverlayRender) => DriverState::Idle,
    }
}

/// Consumes a frame's outcome after a `RenderFrame` action.
pub fn finish_frame(outcome: &Result<(), FrameError>) -> (s: DriverState)
    ensures
        s == finish_state(*outcome),
{
    match outcome {
        Ok(()) => DriverState::Presented,
        Err(FrameError::MakeCurrentFailed) => DriverState::Exit,
        Err(FrameError::OverlayRender) => DriverState::Idle,
    }
}

/// The state after consuming a whole event sequence, oldest first.
pub open spec fn run_states(s: DriverState, evs: Seq<LoopEvent>) -> DriverState
    decreases evs.len(),
{
    if evs.len() == 0 {
        s
    } else {
        run_states(step_state(s, evs[0]), evs.skip(1))
    }
}

/// `Exit` is absorbing: once reached, every further event leaves the
/// driver in `Exit`.
pub proof fn lemma_exit_absorbing(evs: Seq<LoopEvent>)
    ensures
        run_states(DriverState::Exit, evs) == DriverState::Exit,
    decreases evs.len(),
{
    if evs.len() != 0 {
        lemma_exit_absorbing(evs.skip(1));
    }
}

/// A close-requested or escape-key event moves the driver to `Exit` within
/// that event-loop iteration, from any state, and it stays there for the
/// rest of the event sequence.
pub proof fn lemma_close_event_exits(s: DriverState, evs: Seq<LoopEvent>, i: int)
    requires
        0 <= i < evs.len(),
        is_exit_event(evs[i]),
    ensures
        run_states(s, evs) == DriverState::Exit,
    decreases evs.len(),
{
    if i == 0 {
        lemma_exit_absorbing(evs.skip(1));
    } else {
        lemma_close_event_exits(step_state(s, evs[0]), evs.skip(1), i - 1);
    }
}

/// After a close-requested or escape-key event, no later event can make
/// the loop render another frame: every subsequent step starts from `Exit`
/// and demands termination, never a frame.
pub proof fn lemma_no_frame_after_close(s: DriverState, evs: Seq<LoopEvent>, i: int, j: int)
    requires
        0 <= i < j < evs.len(),
        is_exit_event(evs[i]),
    ensures
        run_states(s, evs.take(j)) == DriverState::Exit,
        step_action(run_states(s, evs.take(j)), evs[j]) == DriverAction::Terminate,
        step_action(run_states(s, evs.take(j)), evs[j]) != DriverAction::RenderFrame,
{
    lemma_close_event_exits(s, evs.take(j), i);
}

} // verus!
