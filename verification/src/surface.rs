//! The shared off-screen render target and its pixel semantics.
//!
//! Both rendering layers rasterize lists of [`DrawCommand`]s into a
//! [`SurfaceTexture`]: a fixed-size color attachment paired with a depth
//! attachment.  The meaning of a command is given pixelwise by [`covers`],
//! and drawing a whole list folds [`apply_cmd`] over it, so every contract
//! about frame content is stated over these spec functions.

use vstd::arithmetic::div_mod::lemma_fundamental_div_mod_converse;
use vstd::prelude::*;

verus! {

/// Largest width or height a render target may have.
pub const MAX_DIM: usize = 4096;

/// Largest magnitude of a coordinate in a circle or rectangle command.
pub const MAX_COORD: i64 = 1048576;

/// One rasterization command, in integer pixel coordinates.
///
/// Colors are packed `0xAARRGGBB` words, as the canvas layer uses them.
#[derive(Clone, Copy, Debug, PartialEq, Eq, Structural)]
pub enum DrawCommand {
    /// A filled disk: every pixel within `r` of `(cx, cy)` takes `color`.
    FillCircle { cx: i64, cy: i64, r: i64, color: u32 },
    /// An axis-aligned filled rectangle of extent `w` by `h` from `(x, y)`.
    FillRect { x: i64, y: i64, w: i64, h: i64, color: u32 },
    /// A single plotted pixel, as a stroked path sampled point by point.
    PlotPoint { x: i64, y: i64, color: u32 },
}

/// Coordinate bounds under which a command can be rasterized without
/// overflowing the machine arithmetic of the pixel test.
pub open spec fn cmd_valid(c: DrawCommand) -> bool {
    match c {
        DrawCommand::FillCircle { cx, cy, r, .. } => {
            -MAX_COORD <= cx <= MAX_COORD && -MAX_COORD <= cy <= MAX_COORD && 0 <= r
                <= MAX_COORD
        },
        DrawCommand::FillRect { x, y, w, h, .. } => {
            -MAX_COORD <= x <= MAX_COORD && -MAX_COORD <= y <= MAX_COORD && 0 <= w <= MAX_COORD
                && 0 <= h <= MAX_COORD
        },
        DrawCommand::PlotPoint { .. } => true,
    }
}

/// The color a command writes to the pixels it covers.
pub open spec fn cmd_color(c: DrawCommand) -> u32 {
    match c {
        DrawCommand::FillCircle { color, .. } => color,
        DrawCommand::FillRect { color, .. } => color,
        DrawCommand::PlotPoint { color, .. } => color,
    }
}

/// Whether the pixel at `(x, y)` is covered by command `c`.
pub open spec fn covers(c: DrawCommand, x: int, y: int) -> bool {
    match c {
        DrawCommand::FillCircle { cx, cy, r, .. } => {
            (x - cx) * (x - cx) + (y - cy) * (y - cy) <= r * r
        },
        DrawCommand::FillRect { x: x0, y: y0, w, h, .. } => {
            x0 <= x < x0 + w && y0 <= y < y0 + h
        },
        DrawCommand::PlotPoint { x: px, y: py, .. } => x == px && y == py,
    }
}

/// The pixel row-major sequence `p` (of a target `w` pixels wide) after
/// rasterizing one command.
pub open spec fn apply_cmd(p: Seq<u32>, w: int, c: DrawCommand) -> Seq<u32> {
    Seq::new(p.len(), |i: int| if covers(c, i % w, i / w) { cmd_color(c) } else { p[i] })
}

/// The pixel sequence after rasterizing a whole command list, in order.
pub open spec fn apply_cmds(p: Seq<u32>, w: int, cs: Seq<DrawCommand>) -> Seq<u32>
    decreases cs.len(),
{
    if cs.len() == 0 {
        p
    } else {
        apply_cmds(apply_cmd(p, w, cs[0]), w, cs.skip(1))
    }
}

/// A sequence of `n` pixels all holding `color`.
pub open spec fn filled(n: nat, color: u32) -> Seq<u32> {
    Seq::new(n, |i: int| color)
}

/// Rasterizing commands never changes the number of pixels.
pub proof fn lemma_apply_cmds_len(p: Seq<u32>, w: int, cs: Seq<DrawCommand>)
    ensures
        apply_cmds(p, w, cs).len() == p.len(),
    decreases cs.len(),
{
    if cs.len() != 0 {
        lemma_apply_cmds_len(apply_cmd(p, w, cs[0]), w, cs.skip(1));
    }
}

/// Rasterizing a list and then one more command is the same as rasterizing
/// the list extended by that command.
pub proof fn lemma_apply_cmds_push(p: Seq<u32>, w: int, cs: Seq<DrawCommand>, c: DrawCommand)
    ensures
        apply_cmds(p, w, cs.push(c)) == apply_cmd(apply_cmds(p, w, cs), w, c),
    decreases cs.len(),
{
    reveal_with_fuel(apply_cmds, 2);
    if cs.len() == 0 {
        assert(cs.push(c)[0] == c);
        assert(cs.push(c).skip(1) =~= Seq::<DrawCommand>::empty());
    } else {
        assert(cs.push(c)[0] == cs[0]);
        assert(cs.push(c).skip(1) =~= cs.skip(1).push(c));
        lemma_apply_cmds_push(apply_cmd(p, w, cs[0]), w, cs.skip(1), c);
    }
}

/// What rasterizing a single command leaves at the pixel `(x, y)`: the
/// command's color where it covers, the prior content where it does not.
pub proof fn lemma_single_cmd_pixel(p: Seq<u32>, w: int, c: DrawCommand, x: int, y: int)
    requires
        0 < w,
        0 <= x < w,
        0 <= y,
        y * w + x < p.len(),
    ensures
        covers(c, x, y) ==> apply_cmds(p, w, seq![c])[y * w + x] == cmd_color(c),
        !covers(c, x, y) ==> apply_cmds(p, w, seq![c])[y * w + x] == p[y * w + x],
{
    reveal_with_fuel(apply_cmds, 2);
    assert(seq![c].skip(1) =~= Seq::<DrawCommand>::empty());
    lemma_fundamental_div_mod_converse(y * w + x, w, y, x);
}

/// The off-screen render target: a fixed-size color attachment and its
/// paired depth attachment, both stored row-major.
///
/// Created once, after the window and primary context exist, so that it
/// lives in the namespace both GPU contexts share; it is never resized.
pub struct SurfaceTexture {
    pub width: usize,
    pub height: usize,
    pub pixels: Vec<u32>,
    pub depth: Vec<u32>,
    /// Whether the attachments are currently bound as the primary
    /// context's draw framebuffer.  Whoever binds must unbind before the
    /// compositor may assume the default framebuffer is active.
    pub bound: bool,
}

impl SurfaceTexture {
    /// Well-formedness: bounded non-empty dimensions, and both attachments
    /// hold exactly one sample per pixel.
    pub open spec fn wf(self) -> bool {
        0 < self.width <= MAX_DIM && 0 < self.height <= MAX_DIM && self.pixels.len()
            == self.width * self.height && self.depth.len() == self.width * self.height
    }

    /// Creates the target with every color sample `color` and every depth
    /// sample `depth_value`.
    pub fn new(width: usize, height: usize, color: u32, depth_value: u32) -> (s: Self)
        requires
            0 < width <= MAX_DIM,
            0 < height <= MAX_DIM,
        ensures
            s.wf(),
            s.width == width,
            s.height == height,
            s.pixels@ == filled((width * height) as nat, color),
            s.depth@ == filled((width * height) as nat, depth_value),
            !s.bound,
    {
        proof {
            assert(width * height <= MAX_DIM * MAX_DIM) by (nonlinear_arith)
                requires
                    0 < width <= MAX_DIM,
                    0 < height <= MAX_DIM,
            ;
        }
        let n: usize = width * height;
        SurfaceTexture {
            width,
            height,
            pixels: filled_vec(n, color),
            depth: filled_vec(n, depth_value),
            bound: false,
        }
    }

    /// Attaches the color and depth attachments as the framebuffer's
    /// targets; the pixels themselves are untouched.
    pub fn bind_framebuffer(&mut self)
        requires
            !old(self).bound,
        ensures
            *final(self) == (SurfaceTexture { bound: true, ..*old(self) }),
    {
        self.bound = true;
    }

    /// Releases the framebuffer binding, so the default (window)
    /// framebuffer is the draw target again.
    pub fn unbind_framebuffer(&mut self)
        ensures
            *final(self) == (SurfaceTexture { bound: false, ..*old(self) }),
    {
        self.bound = false;
    }

    /// Clears both attachments, as each frame does before the vector layer
    /// draws: every color sample becomes `color`, every depth sample
    /// `depth_value`.
    pub fn clear_color_and_depth(&mut self, color: u32, depth_value: u32)
        requires
            old(self).wf(),
        ensures
            final(self).wf(),
            final(self).width == old(self).width,
            final(self).height == old(self).height,
            final(self).pixels@ == filled(old(self).pixels@.len(), color),
            final(self).depth@ == filled(old(self).depth@.len(), depth_value),
            final(self).bound == old(self).bound,
    {
        let n: usize = self.pixels.len();
        self.pixels = filled_vec(n, color);
        let m: usize = self.depth.len();
        self.depth = filled_vec(m, depth_value);
    }

    /// Rasterizes one command into the color attachment.
    pub fn draw_command(&mut self, cmd: &DrawCommand)
        requires
            old(self).wf(),
            cmd_valid(*cmd),
        ensures
            final(self).wf(),
            final(self).width == old(self).width,
            final(self).height == old(self).height,
            final(self).pixels@ == apply_cmd(
                old(self).pixels@,
                old(self).width as int,
                *cmd,
            ),
            final(self).depth@ == old(self).depth@,
            final(self).bound == old(self).bound,
    {
        let w: usize = self.width;
        let h: usize = self.height;
        let color: u32 = cmd_color_exec(cmd);
        let ghost p0: Seq<u32> = self.pixels@;
        let mut y: usize = 0;
        while y < h
            invariant
                self.width == w,
                self.height == h,
                w == old(self).width,
                h == old(self).height,
                self.depth@ == old(self).depth@,
                self.bound == old(self).bound,
                old(self).wf(),
                cmd_valid(*cmd),
                self.pixels@.len() == p0.len(),
                p0 == old(self).pixels@,
                p0.len() == w * h,
                color == cmd_color(*cmd),
                0 <= y <= h,
                forall|i: int|
                    0 <= i < p0.len() ==> self.pixels@[i] == (if i < y * w && covers(
                        *cmd,
                        i % (w as int),
                        i / (w as int),
                    ) {
                        color
                    } else {
                        p0[i]
                    }),
            decreases h - y,
        {
            let mut x: usize = 0;
            while x < w
                invariant
                    self.width == w,
                    self.height == h,
                    w == old(self).width,
                    h == old(self).height,
                    self.depth@ == old(self).depth@,
                    self.bound == old(self).bound,
                    old(self).wf(),
                    cmd_valid(*cmd),
                    self.pixels@.len() == p0.len(),
                    p0 == old(self).pixels@,
                    p0.len() == w * h,
                    color == cmd_color(*cmd),
                    0 <= y < h,
                    0 <= x <= w,
                    forall|i: int|
                        0 <= i < p0.len() ==> self.pixels@[i] == (if i < y * w + x && covers(
                            *cmd,
                            i % (w as int),
                            i / (w as int),
                        ) {
                            color
                        } else {
                            p0[i]
                        }),
                decreases w - x,
            {
                proof {
                    assert(y * w + x < w * h) by (nonlinear_arith)
                        requires
                            0 <= x < w,
                            0 <= y < h,
                    ;
                    lemma_fundamental_div_mod_converse(
                        y * w + x,
                        w as int,
                        y as int,
                        x as int,
                    );
                }
                let i: usize = y * w + x;
                if covers_exec(cmd, x, y) {
                    self.pixels[i] = color;
                }
                x = x + 1;
            }
            y = y + 1;
            proof {
                assert((y - 1) * w + w == y * w) by (nonlinear_arith);
            }
        }
        proof {
            assert(h * w == w * h) by (nonlinear_arith);
            assert(self.pixels@ =~= apply_cmd(p0, w as int, *cmd));
        }
    }

    /// Rasterizes a whole command list, in order; this is the body of both
    /// layers' draw steps.
    pub fn draw_commands(&mut self, cmds: &Vec<DrawCommand>)
        requires
            old(self).wf(),
            forall|i: int| 0 <= i < cmds@.len() ==> cmd_valid(cmds@[i]),
        ensures
            final(self).wf(),
            final(self).width == old(self).width,
            final(self).height == old(self).height,
            final(self).pixels@ == apply_cmds(
                old(self).pixels@,
                old(self).width as int,
                cmds@,
            ),
            final(self).depth@ == old(self).depth@,
            final(self).bound == old(self).bound,
    {
        let ghost p0: Seq<u32> = self.pixels@;
        let w: usize = self.width;
        let mut j: usize = 0;
        while j < cmds.len()
            invariant
                self.width == w,
                self.height == old(self).height,
                self.depth@ == old(self).depth@,
                self.bound == old(self).bound,
                old(self).wf(),
                self.wf(),
                p0 == old(self).pixels@,
                forall|i: int| 0 <= i < cmds@.len() ==> cmd_valid(cmds@[i]),
                0 <= j <= cmds@.len(),
                self.pixels@ == apply_cmds(p0, w as int, cmds@.take(j as int)),
            decreases cmds@.len() - j,
        {
            proof {
                lemma_apply_cmds_len(p0, w as int, cmds@.take(j as int));
            }
            let cmd: DrawCommand = cmds[j];
            self.draw_command(&cmd);
            proof {
                assert(cmds@.take(j + 1) =~= cmds@.take(j as int).push(cmds@[j as int]));
                lemma_apply_cmds_push(p0, w as int, cmds@.take(j as int), cmds@[j as int]);
            }
            j = j + 1;
        }
        proof {
            assert(cmds@.take(cmds@.len() as int) =~= cmds@);
        }
    }
}

/// A vector of `n` copies of `v`.
pub(crate) fn filled_vec(n: usize, v: u32) -> (r: Vec<u32>)
    ensures
        r@ == filled(n as nat, v),
{
    let mut r: Vec<u32> = Vec::new();
    let mut i: usize = 0;
    while i < n
        invariant
            0 <= i <= n,
            r@ == filled(i as nat, v),
        decreases n - i,
    {
        r.push(v);
        proof {
            assert(r@ =~= filled((i + 1) as nat, v));
        }
        i = i + 1;
    }
    r
}

/// The executable form of [`cmd_color`].
pub fn cmd_color_exec(c: &DrawCommand) -> (r: u32)
    ensures
        r == cmd_color(*c),
{
    match c {
        DrawCommand::FillCircle { color, .. } => *color,
        DrawCommand::FillRect { color, .. } => *color,
        DrawCommand::PlotPoint { color, .. } => *color,
    }
}

/// The executable form of [`covers`], for pixel coordinates within the
/// render target.
pub fn covers_exec(c: &DrawCommand, x: usize, y: usize) -> (b: bool)
    requires
        cmd_valid(*c),
        x <= MAX_DIM,
        y <= MAX_DIM,
    ensures
        b == covers(*c, x as int, y as int),
{
    let xi: i64 = x as i64;
    let yi: i64 = y as i64;
    match c {
        DrawCommand::FillCircle { cx, cy, r, .. } => {
            let dx: i64 = xi - *cx;
            let dy: i64 = yi - *cy;
            let rr: i64 = *r;
            proof {
                assert(dx * dx + dy * dy <= 0x40000000000000 && 0 <= dx * dx && 0 <= dy * dy
                    && rr * rr <= 0x10000000000000) by (nonlinear_arith)
                    requires
                        -2097152 <= dx <= 2097152,
                        -2097152 <= dy <= 2097152,
                        0 <= rr <= 1048576,
                ;
            }
            dx * dx + dy * dy <= rr * rr
        },
        DrawCommand::FillRect { x: x0, y: y0, w, h, .. } => {
            *x0 <= xi && xi < *x0 + *w && *y0 <= yi && yi < *y0 + *h
        },
        DrawCommand::PlotPoint { x: px, y: py, .. } => xi == *px && yi == *py,
    }
}

} // verus!
