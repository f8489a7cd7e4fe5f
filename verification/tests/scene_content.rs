use layer_compositor::compositor::{texture_vertex, Compositor};
use layer_compositor::context::{ContextBroker, ContextError, ContextId};
use layer_compositor::scene::{
    bezier_coord_exec, face_scene, render_skia, CLEAR_COLOR, DEPTH_CLEAR, EYE_COLOR, FACE_COLOR,
    HEIGHT, MOUTH_COLOR, WIDTH,
};
use layer_compositor::surface::{DrawCommand, SurfaceTexture};

#[test]
fn bezier_endpoints_and_midpoint() {
    // At k == 0 the curve is at its start coordinate, at k == n at its end.
    assert_eq!(bezier_coord_exec(12, 12, 237, 237, 0, 64), 12);
    assert_eq!(bezier_coord_exec(12, 12, 237, 237, 64, 64), 237);
    assert_eq!(bezier_coord_exec(125, 187, 187, 125, 0, 64), 125);
    assert_eq!(bezier_coord_exec(125, 187, 187, 125, 64, 64), 125);
    // The mouth's midpoint: (12 + 3*12 + 3*237 + 237) / 8 and
    // (125 + 3*187 + 3*187 + 125) / 8, rounded down.
    assert_eq!(bezier_coord_exec(12, 12, 237, 237, 32, 64), 124);
    assert_eq!(bezier_coord_exec(125, 187, 187, 125, 32, 64), 171);
}

#[test]
fn face_scene_commands() {
    let cmds = face_scene();
    // Face, two eyes, then 65 sampled mouth points.
    assert_eq!(cmds.len(), 68);
    assert_eq!(
        cmds[0],
        DrawCommand::FillCircle { cx: 125, cy: 125, r: 125, color: FACE_COLOR }
    );
    assert_eq!(cmds[1], DrawCommand::FillCircle { cx: 63, cy: 84, r: 12, color: EYE_COLOR });
    assert_eq!(cmds[2], DrawCommand::FillCircle { cx: 187, cy: 84, r: 12, color: EYE_COLOR });
    assert_eq!(cmds[3], DrawCommand::PlotPoint { x: 12, y: 125, color: MOUTH_COLOR });
    assert_eq!(cmds[67], DrawCommand::PlotPoint { x: 237, y: 125, color: MOUTH_COLOR });
}

#[test]
fn render_skia_draws_the_face_into_the_surface() {
    let mut surface = SurfaceTexture::new(WIDTH, HEIGHT, CLEAR_COLOR, DEPTH_CLEAR);
    render_skia(&mut surface);
    // The face disk's center.
    assert_eq!(surface.pixels[125 * WIDTH + 125], FACE_COLOR);
    // An eye center.
    assert_eq!(surface.pixels[84 * WIDTH + 63], EYE_COLOR);
    assert_eq!(surface.pixels[84 * WIDTH + 187], EYE_COLOR);
    // The mouth's first sampled point, drawn over the face disk.
    assert_eq!(surface.pixels[125 * WIDTH + 12], MOUTH_COLOR);
    // Far corners stay at the cleared background.
    assert_eq!(surface.pixels[0], CLEAR_COLOR);
    assert_eq!(surface.pixels[499 * WIDTH + 499], CLEAR_COLOR);
}

#[test]
fn full_screen_quad_is_canonical() {
    let c = Compositor::new();
    assert_eq!(c.quad.vertices.len(), 4);
    assert_eq!(c.quad.indices, vec![0, 1, 2, 0, 2, 3]);
    assert_eq!(c.quad.vertices[0].position, [-1, -1, 0]);
    assert_eq!(c.quad.vertices[0].tex_coord, [0, 0]);
    assert_eq!(c.quad.vertices[1].position, [-1, 1, 0]);
    assert_eq!(c.quad.vertices[1].tex_coord, [0, 1]);
    assert_eq!(c.quad.vertices[2].position, [1, 1, 0]);
    assert_eq!(c.quad.vertices[2].tex_coord, [1, 1]);
    assert_eq!(c.quad.vertices[3].position, [1, -1, 0]);
    assert_eq!(c.quad.vertices[3].tex_coord, [1, 0]);
}

#[test]
fn texture_vertex_sits_at_depth_zero() {
    let v = texture_vertex([1, -1], [1, 0]);
    assert_eq!(v.position, [1, -1, 0]);
    assert_eq!(v.tex_coord, [1, 0]);
}

#[test]
fn broker_logs_each_successful_switch() {
    let mut b = ContextBroker::new();
    assert_eq!(b.current, ContextId::Primary);
    assert!(b.switch_log.is_empty());
    assert_eq!(b.make_current(ContextId::Secondary, true), Ok(()));
    assert_eq!(b.current, ContextId::Secondary);
    assert_eq!(b.switch_log, vec![ContextId::Secondary]);
    assert_eq!(b.make_current(ContextId::Primary, true), Ok(()));
    assert_eq!(b.current, ContextId::Primary);
    assert_eq!(b.switch_log, vec![ContextId::Secondary, ContextId::Primary]);
}

#[test]
fn broker_failed_switch_changes_nothing() {
    let mut b = ContextBroker::new();
    assert_eq!(
        b.make_current(ContextId::Secondary, false),
        Err(ContextError::MakeCurrentFailed)
    );
    assert_eq!(b.current, ContextId::Primary);
    assert!(b.switch_log.is_empty());
}
