//! One frame of the pipeline, end to end.
//!
//! [`render_frame`] orders the steps of a frame: clear the shared surface,
//! make the secondary context current, let the vector layer draw and
//! flush, restore the primary context, let the overlay draw on top, then
//! composite the surface onto the window framebuffer and present.  Its
//! contract pins the surface and window pixels of every outcome, the
//! context-switch history, and the exact step trace of a presented frame.
//!
//! Clearing policy: the off-screen target is cleared exactly once per
//! frame, before the vector layer draws; the overlay then accumulates on
//! top of the vector layer's output within that frame, and nothing
//! carries over to the next frame.

use crate::compositor::{composited, Compositor, WindowFramebuffer};
use crate::context::{ContextBroker, ContextId};
use crate::overlay::draw_overlay;
use crate::surface::{
    apply_cmds, cmd_color, cmd_valid, covers, filled, lemma_apply_cmds_len, lemma_single_cmd_pixel,
    DrawCommand, SurfaceTexture,
};
use vstd::prelude::*;

verus! {

/// Why a frame was not presented.
#[derive(Clone, Copy, Debug, PartialEq, Eq, Structural)]
pub enum FrameError {
    /// A make-current call failed: fatal, the loop must terminate.
    MakeCurrentFailed,
    /// The overlay rasterizer failed: the frame is skipped, the loop goes
    /// on.
    OverlayRender,
}

/// One observable step of a frame, in the order the pipeline performs
/// them.
#[derive(Clone, Copy, Debug, PartialEq, Eq, Structural)]
pub enum FrameStep {
    /// Clear the surface texture's color and depth attachments.
    ClearTarget,
    /// Make the secondary context current for the vector layer.
    MakeSecondaryCurrent,
    /// The vector layer's draw calls into the surface texture.
    VectorDraw,
    /// The vector layer's synchronous flush-and-submit of its GPU work.
    FlushSubmit,
    /// Restore the primary context for the overlay and the compositor.
    MakePrimaryCurrent,
    /// Attach the surface texture's attachments as the draw framebuffer.
    BindSurfaceFramebuffer,
    /// The overlay layer's rasterization onto the surface texture.
    OverlayDraw,
    /// Release the binding, so the default framebuffer is active again.
    UnbindSurfaceFramebuffer,
    /// Clear the window framebuffer's color and depth.
    ClearWindow,
    /// Draw the full-screen quad sampling the surface texture.
    DrawQuad,
    /// Swap the window framebuffer to the display.
    PresentWindow,
}

/// The steps a presented frame performs, in order.
pub open spec fn canonical_frame_steps() -> Seq<FrameStep> {
    seq![
        FrameStep::ClearTarget,
        FrameStep::MakeSecondaryCurrent,
        FrameStep::VectorDraw,
        FrameStep::FlushSubmit,
        FrameStep::MakePrimaryCurrent,
        FrameStep::BindSurfaceFramebuffer,
        FrameStep::OverlayDraw,
        FrameStep::UnbindSurfaceFramebuffer,
        FrameStep::ClearWindow,
        FrameStep::DrawQuad,
        FrameStep::PresentWindow,
    ]
}

/// Whether a step changes which GPU context is current.
pub open spec fn is_context_switch(s: FrameStep) -> bool {
    s == FrameStep::MakeSecondaryCurrent || s == FrameStep::MakePrimaryCurrent
}

/// The record of the steps one presented frame performed.
pub struct FrameTrace {
    pub steps: Vec<FrameStep>,
}

/// The surface pixels after the per-frame clear.
pub open spec fn cleared_pixels(n: nat, background: u32) -> Seq<u32> {
    filled(n, background)
}

/// The surface pixels after the vector layer has drawn `scene` over the
/// cleared surface.
pub open spec fn vector_pixels(n: nat, w: int, background: u32, scene: Seq<DrawCommand>) -> Seq<
    u32,
> {
    apply_cmds(cleared_pixels(n, background), w, scene)
}

/// The surface pixels after the overlay has drawn `overlay` over the
/// vector layer's output: the content a presented frame shows.
pub open spec fn frame_pixels(
    n: nat,
    w: int,
    background: u32,
    scene: Seq<DrawCommand>,
    overlay: Seq<DrawCommand>,
) -> Seq<u32> {
    apply_cmds(vector_pixels(n, w, background, scene), w, overlay)
}

/// Renders and presents one frame.
///
/// `scene` is the vector layer's command list and `overlay` the draw data
/// the UI callback declared.  `secondary_ok` and `restore_ok` are the GPU
/// driver's verdicts on the two make-current calls, and `raster_ok` the
/// overlay rasterizer's verdict, each reported by the unverified caller
/// that performs the real calls; the contract states what holds of every
/// combination.  `now` is the monotonic time this frame began.
pub fn render_frame(
    broker: &mut ContextBroker,
    surface: &mut SurfaceTexture,
    window: &mut WindowFramebuffer,
    compositor: &Compositor,
    scene: &Vec<DrawCommand>,
    overlay: &Vec<DrawCommand>,
    last_frame: &mut u64,
    now: u64,
    background: u32,
    depth_clear: u32,
    secondary_ok: bool,
    restore_ok: bool,
    raster_ok: bool,
) -> (r: Result<FrameTrace, FrameError>)
    requires
        old(broker).current == ContextId::Primary,
        old(surface).wf(),
        !old(surface).bound,
        old(window).wf(),
        compositor.wf(),
        old(window).width == old(surface).width,
        old(window).height == old(surface).height,
        forall|i: int| 0 <= i < scene@.len() ==> cmd_valid(scene@[i]),
        forall|i: int| 0 <= i < overlay@.len() ==> cmd_valid(overlay@[i]),
        *old(last_frame) <= now,
    ensures
        final(surface).wf(),
        // The binding is scoped: whatever the outcome, the surface
        // framebuffer is released by the time the call returns.
        !final(surface).bound,
        final(window).wf(),
        final(surface).width == old(surface).width,
        final(surface).height == old(surface).height,
        final(window).width == old(window).width,
        final(window).height == old(window).height,
        // A frame is presented exactly when every outside verdict was
        // success.
        r == Ok::<FrameTrace, FrameError>(r->Ok_0) <==> (secondary_ok && restore_ok && raster_ok),
        // Exactly one secondary and one primary change, in that order, are
        // logged for every frame whose context switches succeeded.
        secondary_ok && restore_ok ==> final(broker).switch_log@ == old(broker).switch_log@.push(
            ContextId::Secondary,
        ).push(ContextId::Primary) && final(broker).current == ContextId::Primary,
        !secondary_ok ==> r == Err::<FrameTrace, FrameError>(FrameError::MakeCurrentFailed)
            && final(broker).switch_log@ == old(broker).switch_log@ && final(broker).current
            == ContextId::Primary && final(surface).pixels@ == cleared_pixels(
            old(surface).pixels@.len(),
            background,
        ) && final(window).pixels@ == old(window).pixels@ && final(window).depth@ == old(
            window,
        ).depth@ && *final(last_frame) == *old(last_frame),
        secondary_ok && !restore_ok ==> r == Err::<FrameTrace, FrameError>(
            FrameError::MakeCurrentFailed,
        ) && final(broker).switch_log@ == old(broker).switch_log@.push(ContextId::Secondary)
            && final(broker).current == ContextId::Secondary && final(surface).pixels@
            == vector_pixels(
            old(surface).pixels@.len(),
            old(surface).width as int,
            background,
            scene@,
        ) && final(window).pixels@ == old(window).pixels@ && final(window).depth@ == old(
            window,
        ).depth@ && *final(last_frame) == *old(last_frame),
        secondary_ok && restore_ok && !raster_ok ==> r == Err::<FrameTrace, FrameError>(
            FrameError::OverlayRender,
        ) && final(surface).pixels@ == vector_pixels(
            old(surface).pixels@.len(),
            old(surface).width as int,
            background,
            scene@,
        ) && final(window).pixels@ == old(window).pixels@ && final(window).depth@ == old(
            window,
        ).depth@ && *final(last_frame) == now,
        secondary_ok && restore_ok && raster_ok ==> final(surface).pixels@ == frame_pixels(
            old(surface).pixels@.len(),
            old(surface).width as int,
            background,
            scene@,
            overlay@,
        ) && final(window).pixels@ == composited(final(surface).pixels@) && final(window).depth@
            == filled(old(window).depth@.len(), depth_clear) && *final(last_frame) == now,
        // A presented frame's step trace is exactly the canonical order.
        r matches Ok(t) ==> t.steps@ == canonical_frame_steps(),
{
    let mut steps: Vec<FrameStep> = Vec::new();
    surface.clear_color_and_depth(background, depth_clear);
    steps.push(FrameStep::ClearTarget);
    match broker.make_current(ContextId::Secondary, secondary_ok) {
        Ok(()) => {},
        Err(_) => {
            return Err(FrameError::MakeCurrentFailed);
        },
    }
    steps.push(FrameStep::MakeSecondaryCurrent);
    surface.draw_commands(scene);
    steps.push(FrameStep::VectorDraw);
    // The vector layer ends with a synchronous flush and submit, so the
    // surface is fully determined before anything on the primary context
    // reads it.
    steps.push(FrameStep::FlushSubmit);
    match broker.make_current(ContextId::Primary, restore_ok) {
        Ok(()) => {},
        Err(_) => {
            return Err(FrameError::MakeCurrentFailed);
        },
    }
    steps.push(FrameStep::MakePrimaryCurrent);
    surface.bind_framebuffer();
    steps.push(FrameStep::BindSurfaceFramebuffer);
    match draw_overlay(surface, overlay, last_frame, now, raster_ok) {
        Ok(()) => {},
        Err(_) => {
            surface.unbind_framebuffer();
            return Err(FrameError::OverlayRender);
        },
    }
    steps.push(FrameStep::OverlayDraw);
    surface.unbind_framebuffer();
    steps.push(FrameStep::UnbindSurfaceFramebuffer);
    compositor.present(window, surface, background, depth_clear);
    steps.push(FrameStep::ClearWindow);
    steps.push(FrameStep::DrawQuad);
    steps.push(FrameStep::PresentWindow);
    proof {
        assert(steps@ =~= canonical_frame_steps());
    }
    Ok(FrameTrace { steps })
}

/// A frame with an empty scene and an empty overlay presents nothing but
/// the background clear color: every pixel of the presented content is
/// `background`.
pub proof fn lemma_empty_frame_background(n: nat, w: int, background: u32)
    ensures
        frame_pixels(n, w, background, Seq::<DrawCommand>::empty(), Seq::<DrawCommand>::empty())
            == filled(n, background),
        forall|i: int|
            0 <= i < n ==> frame_pixels(
                n,
                w,
                background,
                Seq::<DrawCommand>::empty(),
                Seq::<DrawCommand>::empty(),
            )[i] == background,
{
}

/// A frame whose scene is one filled circle (and whose overlay is empty)
/// presents the circle's color at the circle's center pixel and the
/// background at every pixel outside the circle.
pub proof fn lemma_circle_frame(
    n: nat,
    w: int,
    background: u32,
    cx: i64,
    cy: i64,
    rad: i64,
    color: u32,
    x: int,
    y: int,
)
    requires
        0 < w,
        0 <= rad,
        0 <= x < w,
        0 <= y,
        y * w + x < n,
    ensures
        x == cx && y == cy ==> frame_pixels(
            n,
            w,
            background,
            seq![DrawCommand::FillCircle { cx, cy, r: rad, color }],
            Seq::<DrawCommand>::empty(),
        )[y * w + x] == color,
        (x - cx) * (x - cx) + (y - cy) * (y - cy) > rad * rad ==> frame_pixels(
            n,
            w,
            background,
            seq![DrawCommand::FillCircle { cx, cy, r: rad, color }],
            Seq::<DrawCommand>::empty(),
        )[y * w + x] == background,
{
    let c = DrawCommand::FillCircle { cx, cy, r: rad, color };
    assert(0 <= rad * rad) by (nonlinear_arith)
        requires
            0 <= rad,
    ;
    lemma_single_cmd_pixel(filled(n, background), w, c, x, y);
}

/// The overlay shows up exactly where its draw data covers: a pixel
/// covered by the overlay's widget command takes the widget's color, and
/// an uncovered pixel shows the no-overlay baseline — so wherever the
/// widget's color differs from the baseline, the presented frame differs
/// from the baseline frame.
pub proof fn lemma_overlay_region(
    n: nat,
    w: int,
    background: u32,
    scene: Seq<DrawCommand>,
    widget: DrawCommand,
    x: int,
    y: int,
)
    requires
        0 < w,
        0 <= x < w,
        0 <= y,
        y * w + x < n,
    ensures
        covers(widget, x, y) ==> frame_pixels(n, w, background, scene, seq![widget])[y * w + x]
            == cmd_color(widget),
        !covers(widget, x, y) ==> frame_pixels(n, w, background, scene, seq![widget])[y * w + x]
            == vector_pixels(n, w, background, scene)[y * w + x],
        covers(widget, x, y) && cmd_color(widget) != vector_pixels(n, w, background, scene)[y * w
            + x] ==> frame_pixels(n, w, background, scene, seq![widget])[y * w + x]
            != vector_pixels(n, w, background, scene)[y * w + x],
{
    lemma_apply_cmds_len(filled(n, background), w, scene);
    lemma_single_cmd_pixel(vector_pixels(n, w, background, scene), w, widget, x, y);
}

/// The switch history of `k` whole frames: `k` repetitions of secondary
/// then primary.
pub open spec fn repeated_frame_switches(k: nat) -> Seq<ContextId>
    decreases k,
{
    if k == 0 {
        Seq::empty()
    } else {
        repeated_frame_switches((k - 1) as nat).push(ContextId::Secondary).push(
            ContextId::Primary,
        )
    }
}

/// Over any number of frames, the observed context-current changes are
/// exactly the per-frame pair secondary then primary, repeated — never
/// doubled, reordered or interleaved: a broker log that held `k` frames'
/// switches holds, after one more frame, exactly `k + 1` frames' worth.
pub proof fn lemma_switch_log_repeats(k: nat, log_before: Seq<ContextId>, log_after: Seq<ContextId>)
    requires
        log_before == repeated_frame_switches(k),
        log_after == log_before.push(ContextId::Secondary).push(ContextId::Primary),
    ensures
        log_after == repeated_frame_switches(k + 1),
{
}

/// The context-current changes of a presented frame are exactly secondary
/// — under which the vector layer draws — then primary, under which the
/// overlay draws and the frame is composited; no other step changes the
/// current context.
pub proof fn lemma_context_switch_order(steps: Seq<FrameStep>)
    requires
        steps == canonical_frame_steps(),
    ensures
        steps[1] == FrameStep::MakeSecondaryCurrent,
        steps[4] == FrameStep::MakePrimaryCurrent,
        forall|i: int| 0 <= i < steps.len() && is_context_switch(steps[i]) ==> i == 1 || i == 4,
{
}

/// The vector layer's flush-and-submit stands strictly between its draw
/// and the overlay's draw, so the overlay (and everything after it) reads
/// a fully determined surface.
pub proof fn lemma_flush_between_layers(steps: Seq<FrameStep>)
    requires
        steps == canonical_frame_steps(),
    ensures
        steps[2] == FrameStep::VectorDraw,
        steps[3] == FrameStep::FlushSubmit,
        steps[6] == FrameStep::OverlayDraw,
        forall|i: int| 0 <= i < steps.len() && steps[i] == FrameStep::VectorDraw ==> i == 2,
        forall|i: int| 0 <= i < steps.len() && steps[i] == FrameStep::OverlayDraw ==> i == 6,
{
}

/// The surface framebuffer binding is scoped exactly around the overlay
/// draw and released before any step that touches the window's default
/// framebuffer, as the compositor's precondition demands.
pub proof fn lemma_binding_scoped(steps: Seq<FrameStep>)
    requires
        steps == canonical_frame_steps(),
    ensures
        steps[5] == FrameStep::BindSurfaceFramebuffer,
        steps[6] == FrameStep::OverlayDraw,
        steps[7] == FrameStep::UnbindSurfaceFramebuffer,
        forall|i: int|
            0 <= i < steps.len() && (steps[i] == FrameStep::ClearWindow || steps[i]
                == FrameStep::DrawQuad || steps[i] == FrameStep::PresentWindow) ==> i > 7,
{
}

} // verus!
