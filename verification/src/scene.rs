//! The vector layer's scene.
//!
//! The canvas layer draws a face into the shared surface: a translucent
//! filled disk, two darker eye disks, and a stroked cubic-Bézier mouth.
//! The curve is rasterized by sampling it at a fixed number of parameter
//! steps in integer arithmetic, so every plotted point is pinned exactly by
//! [`bezier_coord`].

use crate::surface::{apply_cmds, cmd_valid, DrawCommand, SurfaceTexture};
use vstd::arithmetic::div_mod::{lemma_div_is_ordered, lemma_div_multiples_vanish};
use vstd::prelude::*;

verus! {

/// The fixed output height, in pixels; the output is square.
pub const HEIGHT: usize = 500;

/// The fixed output width, in pixels.
pub const WIDTH: usize = 500;

/// The per-frame background: opaque white.
pub const CLEAR_COLOR: u32 = 0xffffffff;

/// The farthest depth value, written by the per-frame depth clear.
pub const DEPTH_CLEAR: u32 = 0xffffffff;

/// The face disk's fill: translucent yellow.
pub const FACE_COLOR: u32 = 0x55ffff00;

/// The eye disks' fill: translucent black.
pub const EYE_COLOR: u32 = 0x55000000;

/// The mouth stroke: opaque black.
pub const MOUTH_COLOR: u32 = 0xff000000;

/// How many parameter steps sample the mouth curve.
pub const MOUTH_STEPS: u64 = 64;

/// One coordinate of a cubic Bézier with control coordinates `a`, `b`,
/// `c`, `d`, evaluated at parameter `k / n` in fixed-point integer
/// arithmetic: the cubic Bernstein combination scaled by `n^3`, rounded
/// down.
pub open spec fn bezier_coord(a: int, b: int, c: int, d: int, k: int, n: int) -> int {
    ((n - k) * (n - k) * (n - k) * a + 3 * (n - k) * (n - k) * k * b + 3 * (n - k) * k * k * c + k
        * k * k * d) / (n * n * n)
}

/// Evaluates [`bezier_coord`] on machine integers.
pub fn bezier_coord_exec(a: u64, b: u64, c: u64, d: u64, k: u64, n: u64) -> (r: u64)
    requires
        a <= 4096,
        b <= 4096,
        c <= 4096,
        d <= 4096,
        0 < n <= 256,
        k <= n,
    ensures
        r as int == bezier_coord(a as int, b as int, c as int, d as int, k as int, n as int),
        r <= 4096,
{
    let m: u64 = n - k;
    proof {
        assert(m * m <= 65536 && m * m * m <= 16777216 && k * k <= 65536 && k * k * k <= 16777216
            && n * n <= 65536 && 0 < n * n * n <= 16777216 && m * k <= 65536 && m * m * k
            <= 16777216 && m * k * k <= 16777216) by (nonlinear_arith)
            requires
                0 <= m <= 256,
                0 <= k <= 256,
                0 < n <= 256,
        ;
        assert(m * m * m * a <= 16777216 * 4096 && 3 * (m * m * k) * b <= 3 * 16777216 * 4096 && 3
            * (m * k * k) * c <= 3 * 16777216 * 4096 && k * k * k * d <= 16777216 * 4096 && 0 <= m
            * m * m * a && 0 <= 3 * (m * m * k) * b && 0 <= 3 * (m * k * k) * c && 0 <= k * k * k
            * d) by (nonlinear_arith)
            requires
                0 <= m * m * m <= 16777216,
                0 <= m * m * k <= 16777216,
                0 <= m * k * k <= 16777216,
                0 <= k * k * k <= 16777216,
                0 <= a <= 4096,
                0 <= b <= 4096,
                0 <= c <= 4096,
                0 <= d <= 4096,
        ;
    }
    let num: u64 = m * m * m * a + 3 * (m * m * k) * b + 3 * (m * k * k) * c + k * k * k * d;
    let den: u64 = n * n * n;
    proof {
        // The Bernstein weights sum to n^3, so the numerator is at most
        // n^3 * 4096 and the quotient at most 4096.
        assert(m * m * m + 3 * (m * m * k) + 3 * (m * k * k) + k * k * k == n * n * n)
            by (nonlinear_arith)
            requires
                m == n - k,
        ;
        assert(num as int <= (n * n * n) * 4096) by (nonlinear_arith)
            requires
                num as int == m * m * m * a + 3 * (m * m * k) * b + 3 * (m * k * k) * c + k * k * k
                    * d,
                m * m * m + 3 * (m * m * k) + 3 * (m * k * k) + k * k * k == n * n * n,
                0 <= m * m * m,
                0 <= m * m * k,
                0 <= m * k * k,
                0 <= k * k * k,
                0 <= a <= 4096,
                0 <= b <= 4096,
                0 <= c <= 4096,
                0 <= d <= 4096,
        ;
        lemma_div_is_ordered(num as int, (n * n * n) * 4096, den as int);
        lemma_div_multiples_vanish(4096, den as int);
        assert((n * n * n) * 4096 == 4096 * (den as int)) by (nonlinear_arith)
            requires
                den as int == n * n * n,
        ;
        assert(num as int == (n - k) * (n - k) * (n - k) * a + 3 * (n - k) * (n - k) * k * b + 3 * (
        n - k) * k * k * c + k * k * k * d) by (nonlinear_arith)
            requires
                m == n - k,
                num as int == m * m * m * a + 3 * (m * m * k) * b + 3 * (m * k * k) * c + k * k * k
                    * d,
        ;
    }
    num / den
}

/// The face disk: centered at a quarter of the output size, radius the
/// same, so it fills the upper-left quarter region.
pub open spec fn face_circle() -> DrawCommand {
    DrawCommand::FillCircle { cx: 125, cy: 125, r: 125, color: FACE_COLOR }
}

/// The left eye disk.
pub open spec fn left_eye_circle() -> DrawCommand {
    DrawCommand::FillCircle { cx: 63, cy: 84, r: 12, color: EYE_COLOR }
}

/// The right eye disk.
pub open spec fn right_eye_circle() -> DrawCommand {
    DrawCommand::FillCircle { cx: 187, cy: 84, r: 12, color: EYE_COLOR }
}

/// The `k`-th sampled point of the mouth: a cubic from `(12, 125)` with
/// control points `(12, 187)` and `(237, 187)` to `(237, 125)`.
pub open spec fn mouth_point(k: int) -> DrawCommand {
    DrawCommand::PlotPoint {
        x: bezier_coord(12, 12, 237, 237, k, MOUTH_STEPS as int) as i64,
        y: bezier_coord(125, 187, 187, 125, k, MOUTH_STEPS as int) as i64,
        color: MOUTH_COLOR,
    }
}

/// The whole scene, in draw order: face, eyes, then the sampled mouth.
pub open spec fn face_scene_spec() -> Seq<DrawCommand> {
    seq![face_circle(), left_eye_circle(), right_eye_circle()] + Seq::new(
        (MOUTH_STEPS + 1) as nat,
        |k: int| mouth_point(k),
    )
}

/// Builds the scene's command list.
pub fn face_scene() -> (cmds: Vec<DrawCommand>)
    ensures
        cmds@ == face_scene_spec(),
        forall|i: int| 0 <= i < cmds@.len() ==> cmd_valid(cmds@[i]),
{
    let mut cmds: Vec<DrawCommand> = Vec::new();
    cmds.push(DrawCommand::FillCircle { cx: 125, cy: 125, r: 125, color: FACE_COLOR });
    cmds.push(DrawCommand::FillCircle { cx: 63, cy: 84, r: 12, color: EYE_COLOR });
    cmds.push(DrawCommand::FillCircle { cx: 187, cy: 84, r: 12, color: EYE_COLOR });
    let mut k: u64 = 0;
    while k <= MOUTH_STEPS
        invariant
            0 <= k <= MOUTH_STEPS + 1,
            cmds@.len() == 3 + k,
            cmds@ == face_scene_spec().take(3 + k as int),
        decreases MOUTH_STEPS + 1 - k,
    {
        let x: u64 = bezier_coord_exec(12, 12, 237, 237, k, MOUTH_STEPS);
        let y: u64 = bezier_coord_exec(125, 187, 187, 125, k, MOUTH_STEPS);
        cmds.push(DrawCommand::PlotPoint { x: x as i64, y: y as i64, color: MOUTH_COLOR });
        proof {
            assert(cmds@.last() == mouth_point(k as int));
            assert(cmds@ =~= face_scene_spec().take(3 + (k + 1)));
        }
        k = k + 1;
    }
    proof {
        assert(face_scene_spec().take(3 + (MOUTH_STEPS + 1)) =~= face_scene_spec());
    }
    cmds
}

/// The vector layer's draw call: renders the face scene into the shared
/// surface under the secondary context and leaves no pending GPU work —
/// by the time it returns, the surface's contents are exactly the scene
/// rasterized over what the surface held before.
pub fn render_skia(surface: &mut SurfaceTexture)
    requires
        old(surface).wf(),
    ensures
        final(surface).wf(),
        final(surface).width == old(surface).width,
        final(surface).height == old(surface).height,
        final(surface).depth@ == old(surface).depth@,
        final(surface).pixels@ == apply_cmds(
            old(surface).pixels@,
            old(surface).width as int,
            face_scene_spec(),
        ),
{
    let cmds: Vec<DrawCommand> = face_scene();
    surface.draw_commands(&cmds);
}

} // verus!
