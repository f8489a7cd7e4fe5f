//! The compositor: the only component that touches the window's default
//! framebuffer.
//!
//! It owns the immutable full-screen quad — four vertices, six indices and
//! a pair of small shader programs on the GPU side — and presents the
//! shared surface texture by clearing the window framebuffer and drawing
//! that quad once, sampling the texture one-to-one.

use crate::surface::{filled, filled_vec, SurfaceTexture, MAX_DIM};
use vstd::prelude::*;

verus! {

/// One vertex of the full-screen quad: a position in normalized device
/// coordinates (the corners are at ±1, depth 0) and its texture coordinate
/// (0 or 1 per axis).
pub struct TextureVertex {
    pub position: [i8; 3],
    pub tex_coord: [i8; 2],
}

/// Builds a quad vertex at depth zero from a corner position and its
/// texture coordinate.
pub fn texture_vertex(pos: [i8; 2], tex: [i8; 2]) -> (v: TextureVertex)
    ensures
        v.position@ == seq![pos[0], pos[1], 0i8],
        v.tex_coord@ == seq![tex[0], tex[1]],
{
    let v = TextureVertex { position: [pos[0], pos[1], 0], tex_coord: [tex[0], tex[1]] };
    proof {
        assert(v.position@ =~= seq![pos[0], pos[1], 0i8]);
        assert(v.tex_coord@ =~= seq![tex[0], tex[1]]);
    }
    v
}

/// The static 4-vertex, 6-index textured quad, immutable after creation.
pub struct FullScreenQuad {
    pub vertices: Vec<TextureVertex>,
    pub indices: Vec<u32>,
}

impl FullScreenQuad {
    /// The quad spans the whole viewport — its corners sit at the four
    /// normalized-device-coordinate extremes, each mapped to the matching
    /// corner of the texture — and its two triangles wind through the four
    /// corners in order.
    pub open spec fn wf(self) -> bool {
        self.vertices@.len() == 4 && self.indices@ == seq![0u32, 1u32, 2u32, 0u32, 2u32, 3u32]
            && self.vertices@[0].position@ == seq![-1i8, -1i8, 0i8] && self.vertices@[0].tex_coord@
            == seq![0i8, 0i8] && self.vertices@[1].position@ == seq![-1i8, 1i8, 0i8]
            && self.vertices@[1].tex_coord@ == seq![0i8, 1i8] && self.vertices@[2].position@
            == seq![1i8, 1i8, 0i8] && self.vertices@[2].tex_coord@ == seq![1i8, 1i8]
            && self.vertices@[3].position@ == seq![1i8, -1i8, 0i8] && self.vertices@[3].tex_coord@
            == seq![1i8, 0i8]
    }

    /// Builds the canonical full-screen quad.
    pub fn new() -> (q: Self)
        ensures
            q.wf(),
    {
        let mut vertices: Vec<TextureVertex> = Vec::new();
        vertices.push(texture_vertex([-1, -1], [0, 0]));
        vertices.push(texture_vertex([-1, 1], [0, 1]));
        vertices.push(texture_vertex([1, 1], [1, 1]));
        vertices.push(texture_vertex([1, -1], [1, 0]));
        let mut indices: Vec<u32> = Vec::new();
        indices.push(0);
        indices.push(1);
        indices.push(2);
        indices.push(0);
        indices.push(2);
        indices.push(3);
        let q = FullScreenQuad { vertices, indices };
        proof {
            assert(q.indices@ =~= seq![0u32, 1u32, 2u32, 0u32, 2u32, 3u32]);
        }
        q
    }
}

/// The visible window framebuffer: the default color and depth targets the
/// compositor presents into.
pub struct WindowFramebuffer {
    pub width: usize,
    pub height: usize,
    pub pixels: Vec<u32>,
    pub depth: Vec<u32>,
}

impl WindowFramebuffer {
    /// Well-formedness: bounded non-empty dimensions, one sample per pixel
    /// in both targets.
    pub open spec fn wf(self) -> bool {
        0 < self.width <= MAX_DIM && 0 < self.height <= MAX_DIM && self.pixels.len()
            == self.width * self.height && self.depth.len() == self.width * self.height
    }

    /// The window surface as created, with every sample `color` and every
    /// depth sample `depth_value`.
    pub fn new(width: usize, height: usize, color: u32, depth_value: u32) -> (wfb: Self)
        requires
            0 < width <= MAX_DIM,
            0 < height <= MAX_DIM,
        ensures
            wfb.wf(),
            wfb.width == width,
            wfb.height == height,
            wfb.pixels@ == filled((width * height) as nat, color),
            wfb.depth@ == filled((width * height) as nat, depth_value),
    {
        proof {
            assert(width * height <= MAX_DIM * MAX_DIM) by (nonlinear_arith)
                requires
                    0 < width <= MAX_DIM,
                    0 < height <= MAX_DIM,
            ;
        }
        let n: usize = width * height;
        WindowFramebuffer {
            width,
            height,
            pixels: filled_vec(n, color),
            depth: filled_vec(n, depth_value),
        }
    }
}

/// What the full-screen quad draw leaves in the window's color target: the
/// surface texture sampled one-to-one.
pub open spec fn composited(surface_pixels: Seq<u32>) -> Seq<u32> {
    surface_pixels
}

/// The compositor; owns the full-screen quad.
pub struct Compositor {
    pub quad: FullScreenQuad,
}

impl Compositor {
    pub open spec fn wf(self) -> bool {
        self.quad.wf()
    }

    /// Creates the compositor with its canonical quad.
    pub fn new() -> (c: Self)
        ensures
            c.wf(),
    {
        Compositor { quad: FullScreenQuad::new() }
    }

    /// Presents one frame: clears the window framebuffer's color and depth,
    /// then draws the full-screen quad sampling `surface`, so the window's
    /// color target ends up holding exactly the surface's pixels and its
    /// depth target the clear value.  The clear color itself is never
    /// visible, since the quad covers every pixel.
    ///
    /// This must be the last step of a frame, and the surface framebuffer
    /// must have been unbound beforehand so the default framebuffer is the
    /// draw target.
    pub fn present(
        &self,
        window: &mut WindowFramebuffer,
        surface: &SurfaceTexture,
        clear_color: u32,
        clear_depth: u32,
    )
        requires
            self.wf(),
            old(window).wf(),
            surface.wf(),
            // Strict precondition: the surface's framebuffer binding must
            // have been released, so the default framebuffer is the draw
            // target.
            !surface.bound,
            old(window).width == surface.width,
            old(window).height == surface.height,
        ensures
            final(window).wf(),
            final(window).width == old(window).width,
            final(window).height == old(window).height,
            final(window).pixels@ == composited(surface.pixels@),
            final(window).depth@ == filled(old(window).depth@.len(), clear_depth),
    {
        let n: usize = window.pixels.len();
        window.pixels = filled_vec(n, clear_color);
        let m: usize = window.depth.len();
        window.depth = filled_vec(m, clear_depth);
        let mut i: usize = 0;
        let mut drawn: Vec<u32> = Vec::new();
        while i < surface.pixels.len()
            invariant
                0 <= i <= surface.pixels@.len(),
                drawn@ == surface.pixels@.take(i as int),
            decreases surface.pixels@.len() - i,
        {
            drawn.push(surface.pixels[i]);
            proof {
                assert(drawn@ =~= surface.pixels@.take(i + 1));
            }
            i = i + 1;
        }
        proof {
            assert(surface.pixels@.take(surface.pixels@.len() as int) =~= surface.pixels@);
        }
        window.pixels = drawn;
    }
}

/// Presenting the same surface content twice in a row yields the same
/// window pixels both times: the presented image depends on the surface
/// alone, not on what the window held before.
pub proof fn lemma_present_idempotent(
    surface_pixels: Seq<u32>,
    first: Seq<u32>,
    second: Seq<u32>,
)
    requires
        first == composited(surface_pixels),
        second == composited(surface_pixels),
    ensures
        first == second,
{
}

} // verus!
