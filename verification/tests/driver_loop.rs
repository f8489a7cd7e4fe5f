use layer_compositor::driver::{finish_frame, step, DriverAction, DriverState, LoopEvent};
use layer_compositor::frame::FrameError;
use layer_compositor::overlay::{next_wake, update_delta_time, FRAME_INTERVAL_NANOS};

#[test]
fn close_requested_exits_from_any_state() {
    for s in [
        DriverState::Idle,
        DriverState::Rendering,
        DriverState::Presented,
        DriverState::Exit,
    ] {
        let (next, action) = step(s, LoopEvent::CloseRequested);
        assert_eq!(next, DriverState::Exit);
        assert_eq!(action, DriverAction::Terminate);
    }
}

#[test]
fn escape_key_exits_from_any_state() {
    for s in [
        DriverState::Idle,
        DriverState::Rendering,
        DriverState::Presented,
        DriverState::Exit,
    ] {
        let (next, action) = step(s, LoopEvent::EscapePressed);
        assert_eq!(next, DriverState::Exit);
        assert_eq!(action, DriverAction::Terminate);
    }
}

#[test]
fn exit_is_absorbing_and_never_renders_again() {
    let events = [
        LoopEvent::RedrawRequested,
        LoopEvent::MainEventsCleared,
        LoopEvent::Other,
        LoopEvent::CloseRequested,
        LoopEvent::EscapePressed,
    ];
    for e in events {
        let (next, action) = step(DriverState::Exit, e);
        assert_eq!(next, DriverState::Exit);
        assert_eq!(action, DriverAction::Terminate);
        assert_ne!(action, DriverAction::RenderFrame);
    }
}

#[test]
fn no_frame_renders_after_a_close_event() {
    let events = [
        LoopEvent::MainEventsCleared,
        LoopEvent::RedrawRequested,
        LoopEvent::CloseRequested,
        LoopEvent::RedrawRequested,
        LoopEvent::MainEventsCleared,
        LoopEvent::RedrawRequested,
    ];
    let mut state = DriverState::Idle;
    let mut renders_after_close: u32 = 0;
    let mut closed = false;
    for e in events {
        let (next, action) = step(state, e);
        if closed {
            assert_eq!(next, DriverState::Exit);
            assert_ne!(action, DriverAction::RenderFrame);
            renders_after_close += u32::from(action == DriverAction::RenderFrame);
        }
        if e == LoopEvent::CloseRequested {
            closed = true;
        }
        state = next;
    }
    assert!(closed);
    assert_eq!(renders_after_close, 0);
    assert_eq!(state, DriverState::Exit);
}

#[test]
fn one_cycle_per_redraw_request() {
    // Idle -> Rendering on a redraw request.
    let (s1, a1) = step(DriverState::Idle, LoopEvent::RedrawRequested);
    assert_eq!(s1, DriverState::Rendering);
    assert_eq!(a1, DriverAction::RenderFrame);
    // A presented frame closes the cycle.
    let s2 = finish_frame(&Ok(()));
    assert_eq!(s2, DriverState::Presented);
    // Cleared events return to Idle and schedule the next redraw.
    let (s3, a3) = step(s2, LoopEvent::MainEventsCleared);
    assert_eq!(s3, DriverState::Idle);
    assert_eq!(a3, DriverAction::RequestRedraw);
}

#[test]
fn frame_outcomes_drive_the_state_machine() {
    assert_eq!(finish_frame(&Ok(())), DriverState::Presented);
    assert_eq!(finish_frame(&Err(FrameError::MakeCurrentFailed)), DriverState::Exit);
    assert_eq!(finish_frame(&Err(FrameError::OverlayRender)), DriverState::Idle);
}

#[test]
fn other_events_are_ignored() {
    let (next, action) = step(DriverState::Idle, LoopEvent::Other);
    assert_eq!(next, DriverState::Idle);
    assert_eq!(action, DriverAction::NoOp);
}

#[test]
fn delta_time_advances_the_timestamp() {
    let mut last: u64 = 1_000;
    let delta = update_delta_time(&mut last, 17_500);
    assert_eq!(delta, 16_500);
    assert_eq!(last, 17_500);
    let delta2 = update_delta_time(&mut last, 17_500);
    assert_eq!(delta2, 0);
    assert_eq!(last, 17_500);
}

#[test]
fn next_wake_is_one_interval_from_now() {
    assert_eq!(FRAME_INTERVAL_NANOS, 16_666_667);
    assert_eq!(next_wake(0), 16_666_667);
    assert_eq!(next_wake(1_000_000_000), 1_016_666_667);
}
