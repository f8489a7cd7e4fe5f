//! The overlay layer renderer and the frame timing state.
//!
//! The overlay runs on the primary context, strictly after the vector
//! layer has finished and context ownership has been restored.  Each frame
//! it advances the delta-time state, takes the draw data that the
//! user-supplied UI-construction callback declared (handed in here as a
//! plain command list), and rasterizes it on top of the surface texture's
//! current contents.

use crate::surface::{apply_cmds, cmd_valid, DrawCommand, SurfaceTexture};
use vstd::prelude::*;

verus! {

/// The fixed target frame interval: one wake every ~16.67 ms, for a ~60 Hz
/// cadence.
pub const FRAME_INTERVAL_NANOS: u64 = 16666667;

/// A failed overlay rasterization: fatal for the frame, not for the
/// process — the frame is not presented and the loop continues.
#[derive(Clone, Copy, Debug, PartialEq, Eq, Structural)]
pub enum OverlayError {
    RasterFailed,
}

/// Advances the last-frame timestamp to `now` and returns the elapsed
/// delta, both in nanoseconds of a monotonic clock.
pub fn update_delta_time(last_frame: &mut u64, now: u64) -> (delta: u64)
    requires
        *old(last_frame) <= now,
    ensures
        *final(last_frame) == now,
        delta == now - *old(last_frame),
{
    let delta: u64 = now - *last_frame;
    *last_frame = now;
    delta
}

/// The wake time for the next frame: a fixed interval from `now`.  A
/// scheduling hint, not a deadline — a slow frame is rendered late, never
/// dropped.
pub fn next_wake(now: u64) -> (t: u64)
    requires
        now <= u64::MAX - FRAME_INTERVAL_NANOS,
    ensures
        t == now + FRAME_INTERVAL_NANOS,
{
    now + FRAME_INTERVAL_NANOS
}

/// Renders one overlay frame onto `target`, a framebuffer bound to the
/// surface texture.
///
/// Updates the delta-time state to `now`, then rasterizes `draw_data` — the
/// draw lists built from the UI callback's widget declarations — over the
/// target's current contents.  `raster_ok` is the rasterizer's verdict,
/// reported by the caller that drove the real draw call: on failure the
/// target's pixels are left as the vector layer produced them and the
/// error says the frame must not be taken as correct.
pub fn draw_overlay(
    target: &mut SurfaceTexture,
    draw_data: &Vec<DrawCommand>,
    last_frame: &mut u64,
    now: u64,
    raster_ok: bool,
) -> (r: Result<(), OverlayError>)
    requires
        old(target).wf(),
        // The overlay rasterizes into the framebuffer bound to the
        // surface texture, so the binding must be active.
        old(target).bound,
        forall|i: int| 0 <= i < draw_data@.len() ==> cmd_valid(draw_data@[i]),
        *old(last_frame) <= now,
    ensures
        *final(last_frame) == now,
        final(target).wf(),
        final(target).width == old(target).width,
        final(target).height == old(target).height,
        final(target).depth@ == old(target).depth@,
        final(target).bound == old(target).bound,
        raster_ok ==> r == Ok::<(), OverlayError>(()) && final(target).pixels@ == apply_cmds(
            old(target).pixels@,
            old(target).width as int,
            draw_data@,
        ),
        !raster_ok ==> r == Err::<(), OverlayError>(OverlayError::RasterFailed),
        !raster_ok ==> final(target).pixels@ == old(target).pixels@,
{
    update_delta_time(last_frame, now);
    if raster_ok {
        target.draw_commands(draw_data);
        Ok(())
    } else {
        Err(OverlayError::RasterFailed)
    }
}

} // verus!
