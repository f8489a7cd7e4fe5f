use layer_compositor::compositor::{Compositor, WindowFramebuffer};
use layer_compositor::context::{ContextBroker, ContextId};
use layer_compositor::frame::{render_frame, FrameError, FrameStep};
use layer_compositor::overlay::{draw_overlay, OverlayError};
use layer_compositor::surface::{DrawCommand, SurfaceTexture};

const BG: u32 = 0xffffffff;
const DEPTH: u32 = 0xffffffff;

fn setup(w: usize, h: usize) -> (ContextBroker, SurfaceTexture, WindowFramebuffer, Compositor) {
    let broker = ContextBroker::new();
    let surface = SurfaceTexture::new(w, h, 0, 0);
    let window = WindowFramebuffer::new(w, h, 0x12345678, 0);
    let compositor = Compositor::new();
    (broker, surface, window, compositor)
}

#[test]
fn presented_frame_trace_is_canonical() {
    let (mut broker, mut surface, mut window, compositor) = setup(8, 8);
    let scene: Vec<DrawCommand> = Vec::new();
    let overlay: Vec<DrawCommand> = Vec::new();
    let mut last_frame: u64 = 0;
    let r = render_frame(
        &mut broker,
        &mut surface,
        &mut window,
        &compositor,
        &scene,
        &overlay,
        &mut last_frame,
        1_000,
        BG,
        DEPTH,
        true,
        true,
        true,
    );
    let trace = r.expect("frame should present");
    let expected = vec![
        FrameStep::ClearTarget,
        FrameStep::MakeSecondaryCurrent,
        FrameStep::VectorDraw,
        FrameStep::FlushSubmit,
        FrameStep::MakePrimaryCurrent,
        FrameStep::BindSurfaceFramebuffer,
        FrameStep::OverlayDraw,
        FrameStep::UnbindSurfaceFramebuffer,
        FrameStep::ClearWindow,
        FrameStep::DrawQuad,
        FrameStep::PresentWindow,
    ];
    assert_eq!(trace.steps, expected);
    // Context switches happen exactly at the two make-current steps,
    // secondary first, then primary; the flush stands between the vector
    // draw and the overlay draw; the surface framebuffer binding is
    // released before any window-framebuffer step.
    for (i, s) in trace.steps.iter().enumerate() {
        let is_switch =
            *s == FrameStep::MakeSecondaryCurrent || *s == FrameStep::MakePrimaryCurrent;
        assert_eq!(is_switch, i == 1 || i == 4);
    }
    assert!(trace.steps[2] == FrameStep::VectorDraw);
    assert!(trace.steps[3] == FrameStep::FlushSubmit);
    assert!(trace.steps[6] == FrameStep::OverlayDraw);
    assert!(trace.steps[5] == FrameStep::BindSurfaceFramebuffer);
    assert!(trace.steps[7] == FrameStep::UnbindSurfaceFramebuffer);
    assert!(!surface.bound);
}

#[test]
fn switch_log_is_secondary_then_primary_each_frame() {
    let (mut broker, mut surface, mut window, compositor) = setup(4, 4);
    let scene: Vec<DrawCommand> = Vec::new();
    let overlay: Vec<DrawCommand> = Vec::new();
    let mut last_frame: u64 = 0;
    for frame in 0..3u64 {
        let r = render_frame(
            &mut broker,
            &mut surface,
            &mut window,
            &compositor,
            &scene,
            &overlay,
            &mut last_frame,
            frame * 17_000_000,
            BG,
            DEPTH,
            true,
            true,
            true,
        );
        assert!(r.is_ok());
    }
    assert_eq!(
        broker.switch_log,
        vec![
            ContextId::Secondary,
            ContextId::Primary,
            ContextId::Secondary,
            ContextId::Primary,
            ContextId::Secondary,
            ContextId::Primary,
        ]
    );
    assert_eq!(broker.current, ContextId::Primary);
}

#[test]
fn empty_scene_presents_only_background() {
    let (mut broker, mut surface, mut window, compositor) = setup(8, 8);
    let scene: Vec<DrawCommand> = Vec::new();
    let overlay: Vec<DrawCommand> = Vec::new();
    let mut last_frame: u64 = 0;
    let r = render_frame(
        &mut broker,
        &mut surface,
        &mut window,
        &compositor,
        &scene,
        &overlay,
        &mut last_frame,
        5,
        BG,
        DEPTH,
        true,
        true,
        true,
    );
    assert!(r.is_ok());
    assert_eq!(window.pixels.len(), 64);
    for p in &window.pixels {
        assert_eq!(*p, BG);
    }
}

#[test]
fn circle_scene_presents_color_at_center_background_outside() {
    let (mut broker, mut surface, mut window, compositor) = setup(8, 8);
    let color: u32 = 0xff00ff00;
    let scene = vec![DrawCommand::FillCircle { cx: 4, cy: 4, r: 2, color }];
    let overlay: Vec<DrawCommand> = Vec::new();
    let mut last_frame: u64 = 0;
    let r = render_frame(
        &mut broker,
        &mut surface,
        &mut window,
        &compositor,
        &scene,
        &overlay,
        &mut last_frame,
        5,
        BG,
        DEPTH,
        true,
        true,
        true,
    );
    assert!(r.is_ok());
    // Center pixel of the circle holds its color.
    assert_eq!(window.pixels[4 * 8 + 4], color);
    // A pixel on the circle's edge ring is covered too.
    assert_eq!(window.pixels[4 * 8 + 6], color);
    // Pixels outside the circle show only the background.
    assert_eq!(window.pixels[0], BG);
    assert_eq!(window.pixels[7 * 8 + 7], BG);
    assert_eq!(window.pixels[4 * 8 + 7], BG);
}

#[test]
fn overlay_widget_differs_from_baseline_in_its_region() {
    let scene = vec![DrawCommand::FillCircle { cx: 4, cy: 4, r: 3, color: 0xff0000ff }];
    let widget = DrawCommand::FillRect { x: 1, y: 1, w: 3, h: 2, color: 0xffa0a0a0 };

    // Baseline: no overlay.
    let (mut broker, mut surface, mut baseline, compositor) = setup(8, 8);
    let mut last_frame: u64 = 0;
    let r = render_frame(
        &mut broker,
        &mut surface,
        &mut baseline,
        &compositor,
        &scene,
        &Vec::new(),
        &mut last_frame,
        5,
        BG,
        DEPTH,
        true,
        true,
        true,
    );
    assert!(r.is_ok());

    // Same scene with the overlay's widget declared.
    let (mut broker2, mut surface2, mut overlaid, compositor2) = setup(8, 8);
    let mut last_frame2: u64 = 0;
    let r2 = render_frame(
        &mut broker2,
        &mut surface2,
        &mut overlaid,
        &compositor2,
        &scene,
        &vec![widget],
        &mut last_frame2,
        5,
        BG,
        DEPTH,
        true,
        true,
        true,
    );
    assert!(r2.is_ok());

    // Inside the widget's region the frames differ; outside they agree.
    for y in 0..8usize {
        for x in 0..8usize {
            let i = y * 8 + x;
            let in_widget = (1..4).contains(&x) && (1..3).contains(&y);
            if in_widget {
                assert_eq!(overlaid.pixels[i], 0xffa0a0a0);
                assert_ne!(overlaid.pixels[i], baseline.pixels[i]);
            } else {
                assert_eq!(overlaid.pixels[i], baseline.pixels[i]);
            }
        }
    }
}

#[test]
fn present_same_surface_twice_is_idempotent() {
    let surface = {
        let mut s = SurfaceTexture::new(8, 8, BG, DEPTH);
        s.draw_command(&DrawCommand::FillCircle { cx: 3, cy: 3, r: 2, color: 0xff123456 });
        s
    };
    let compositor = Compositor::new();
    let mut window = WindowFramebuffer::new(8, 8, 0x01020304, 7);
    compositor.present(&mut window, &surface, BG, DEPTH);
    let first = window.pixels.clone();
    compositor.present(&mut window, &surface, BG, DEPTH);
    assert_eq!(window.pixels, first);
}

#[test]
fn secondary_make_current_failure_aborts_without_presenting() {
    let (mut broker, mut surface, mut window, compositor) = setup(8, 8);
    let before = window.pixels.clone();
    let scene = vec![DrawCommand::FillCircle { cx: 4, cy: 4, r: 2, color: 0xff00ff00 }];
    let mut last_frame: u64 = 3;
    let r = render_frame(
        &mut broker,
        &mut surface,
        &mut window,
        &compositor,
        &scene,
        &Vec::new(),
        &mut last_frame,
        9,
        BG,
        DEPTH,
        false,
        true,
        true,
    );
    assert!(matches!(r, Err(FrameError::MakeCurrentFailed)));
    // Nothing was presented and no context change was recorded.
    assert_eq!(window.pixels, before);
    assert!(broker.switch_log.is_empty());
    assert_eq!(broker.current, ContextId::Primary);
    assert_eq!(last_frame, 3);
}

#[test]
fn primary_restore_failure_aborts_without_presenting() {
    let (mut broker, mut surface, mut window, compositor) = setup(8, 8);
    let before = window.pixels.clone();
    let mut last_frame: u64 = 3;
    let r = render_frame(
        &mut broker,
        &mut surface,
        &mut window,
        &compositor,
        &Vec::new(),
        &Vec::new(),
        &mut last_frame,
        9,
        BG,
        DEPTH,
        true,
        false,
        true,
    );
    assert!(matches!(r, Err(FrameError::MakeCurrentFailed)));
    assert_eq!(window.pixels, before);
    assert_eq!(broker.switch_log, vec![ContextId::Secondary]);
}

#[test]
fn overlay_draw_needs_binding_and_reports_raster_failure() {
    let mut s = SurfaceTexture::new(4, 4, 0xff101010, 0);
    s.bind_framebuffer();
    let widget = vec![DrawCommand::FillRect { x: 0, y: 0, w: 2, h: 2, color: 0xffeeeeee }];
    let mut last: u64 = 1;
    // A failed rasterization advances the clock but leaves the pixels.
    let r = draw_overlay(&mut s, &widget, &mut last, 2, false);
    assert_eq!(r, Err(OverlayError::RasterFailed));
    assert_eq!(last, 2);
    assert!(s.pixels.iter().all(|p| *p == 0xff101010));
    // A successful one rasterizes the declared widgets.
    let r2 = draw_overlay(&mut s, &widget, &mut last, 3, true);
    assert_eq!(r2, Ok(()));
    assert_eq!(s.pixels[0], 0xffeeeeee);
    assert_eq!(s.pixels[1 * 4 + 1], 0xffeeeeee);
    assert_eq!(s.pixels[2 * 4 + 2], 0xff101010);
    s.unbind_framebuffer();
    assert!(!s.bound);
}

#[test]
fn smallest_and_widest_targets_render() {
    // A one-pixel surface.
    let (mut broker, mut surface, mut window, compositor) = setup(1, 1);
    let mut last_frame: u64 = 0;
    let r = render_frame(
        &mut broker,
        &mut surface,
        &mut window,
        &compositor,
        &vec![DrawCommand::PlotPoint { x: 0, y: 0, color: 0xff0000aa }],
        &Vec::new(),
        &mut last_frame,
        1,
        BG,
        DEPTH,
        true,
        true,
        true,
    );
    assert!(r.is_ok());
    assert_eq!(window.pixels, vec![0xff0000aa]);
    // The widest allowed row still holds one sample per pixel.
    let wide = SurfaceTexture::new(4096, 1, BG, DEPTH);
    assert_eq!(wide.pixels.len(), 4096);
    assert_eq!(wide.depth.len(), 4096);
}

#[test]
fn overlay_raster_failure_skips_frame_but_keeps_vector_work() {
    let (mut broker, mut surface, mut window, compositor) = setup(8, 8);
    let before = window.pixels.clone();
    let color: u32 = 0xffabcdef;
    let scene = vec![DrawCommand::FillCircle { cx: 4, cy: 4, r: 2, color }];
    let mut last_frame: u64 = 3;
    let r = render_frame(
        &mut broker,
        &mut surface,
        &mut window,
        &compositor,
        &scene,
        &Vec::new(),
        &mut last_frame,
        9,
        BG,
        DEPTH,
        true,
        true,
        false,
    );
    assert!(matches!(r, Err(FrameError::OverlayRender)));
    // The frame was not presented, but the vector layer's flushed work is
    // in the surface and the delta-time state advanced.
    assert_eq!(window.pixels, before);
    assert_eq!(surface.pixels[4 * 8 + 4], color);
    assert_eq!(last_frame, 9);
    // Both context switches still happened.
    assert_eq!(broker.switch_log, vec![ContextId::Secondary, ContextId::Primary]);
}
