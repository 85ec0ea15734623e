//! The frame pipeline: clear, sample the six cube faces through
//! transform → project → plot, and advance the rotation.
//!
//! The six faces are produced by six signed coordinate permutations of one
//! sample grid, each with its own glyph:
//!
//! | face | (x, y, z) fed to the transform | glyph |
//! |------|--------------------------------|-------|
//! | 1    | ( cx,  cy, -CUBE_HALF)         | `.`   |
//! | 2    | ( CUBE_HALF,  cy,  cx)         | `#`   |
//! | 3    | (-CUBE_HALF,  cy, -cx)         | `~`   |
//! | 4    | (-cx,  cy,  CUBE_HALF)         | `$`   |
//! | 5    | ( cx,  CUBE_HALF, -cy)         | `;`   |
//! | 6    | ( cx, -CUBE_HALF,  cy)         | `+`   |
//!
//! where `cx` and `cy` run over `[-CUBE_HALF, CUBE_HALF)` in steps of
//! `SAMPLE_STEP`.  The whole pass is specified by `spec_frame`, a fold over
//! the flattened sample grid, so a drawn frame is a function of the rotation
//! angles alone.

use vstd::prelude::*;
use crate::angles::Angles;
use crate::params::{
    BACKGROUND_GLYPH, CAMERA_DISTANCE, CUBE_HALF, HEIGHT, SAMPLES_PER_AXIS, SAMPLES_TOTAL,
    SAMPLE_STEP, WIDTH,
};
use crate::project::{project, spec_project};
use crate::raster::{spec_plot_depth, spec_plot_glyphs, Canvas};
use crate::transform::{
    calculate_x, calculate_y, calculate_z, spec_rot_x, spec_rot_y, spec_rot_z, spec_trig, Trig,
};

verus! {

/// Both buffers after one face sample `(cx, cy, cz)` is rotated, translated
/// in front of the camera, projected, and depth-tested onto the grid.
pub open spec fn spec_surface(
    g: Seq<char>,
    d: Seq<i64>,
    cx: int,
    cy: int,
    cz: int,
    t: Trig,
    glyph: char,
) -> (Seq<char>, Seq<i64>) {
    let rx = spec_rot_x(cx, cy, cz, t);
    let ry = spec_rot_y(cx, cy, cz, t);
    let rz = spec_rot_z(cx, cy, cz, t) + CAMERA_DISTANCE;
    match spec_project(rx, ry, rz) {
        None => (g, d),
        Some(sp) => (
            spec_plot_glyphs(
                g,
                d,
                WIDTH as int,
                HEIGHT as int,
                sp.x as int,
                sp.y as int,
                sp.ooz,
                glyph,
            ),
            spec_plot_depth(d, WIDTH as int, HEIGHT as int, sp.x as int, sp.y as int, sp.ooz),
        ),
    }
}

/// The cube-local coordinate of sample `s` along one axis.
pub open spec fn spec_sample_coord(s: int) -> int {
    -CUBE_HALF + s * SAMPLE_STEP
}

/// Both buffers after the six face writes of the sample at `(cx, cy)`.
pub open spec fn spec_faces(
    g: Seq<char>,
    d: Seq<i64>,
    t: Trig,
    cx: int,
    cy: int,
) -> (Seq<char>, Seq<i64>) {
    let s1 = spec_surface(g, d, cx, cy, -CUBE_HALF as int, t, '.');
    let s2 = spec_surface(s1.0, s1.1, CUBE_HALF as int, cy, cx, t, '#');
    let s3 = spec_surface(s2.0, s2.1, -CUBE_HALF as int, cy, -cx, t, '~');
    let s4 = spec_surface(s3.0, s3.1, -cx, cy, CUBE_HALF as int, t, '$');
    let s5 = spec_surface(s4.0, s4.1, cx, CUBE_HALF as int, -cy, t, ';');
    spec_surface(s5.0, s5.1, cx, -CUBE_HALF as int, cy, t, '+')
}

/// Both buffers after the first `n` samples of the flattened grid, in
/// row-major sample order.
pub open spec fn spec_sample_upto(
    g: Seq<char>,
    d: Seq<i64>,
    t: Trig,
    n: nat,
) -> (Seq<char>, Seq<i64>)
    decreases n,
{
    if n == 0 {
        (g, d)
    } else {
        let prev = spec_sample_upto(g, d, t, (n - 1) as nat);
        let i = (n - 1) as int / (SAMPLES_PER_AXIS as int);
        let j = (n - 1) as int % (SAMPLES_PER_AXIS as int);
        spec_faces(prev.0, prev.1, t, spec_sample_coord(i), spec_sample_coord(j))
    }
}

/// A blank glyph buffer: every cell holds the background glyph.
pub open spec fn spec_blank_glyphs() -> Seq<char> {
    Seq::new((WIDTH * HEIGHT) as nat, |i: int| BACKGROUND_GLYPH)
}

/// A blank depth buffer: every cell holds inverse depth zero.
pub open spec fn spec_blank_depth() -> Seq<i64> {
    Seq::new((WIDTH * HEIGHT) as nat, |i: int| 0i64)
}

/// The frame a render pass draws from rotation state `an`: the full sample
/// fold over blank buffers.  It depends on the angles alone.
pub open spec fn spec_frame(an: Angles) -> (Seq<char>, Seq<i64>) {
    spec_sample_upto(spec_blank_glyphs(), spec_blank_depth(), spec_trig(an), SAMPLES_TOTAL as nat)
}

/// Run one face sample through the whole pipeline and commit it.
pub fn calculate_for_surface(
    canvas: &mut Canvas,
    cx: i64,
    cy: i64,
    cz: i64,
    t: &Trig,
    glyph: char,
)
    requires
        old(canvas).wf(),
        old(canvas).width == WIDTH,
        old(canvas).height == HEIGHT,
        t.wf(),
        -CUBE_HALF <= cx <= CUBE_HALF,
        -CUBE_HALF <= cy <= CUBE_HALF,
        -CUBE_HALF <= cz <= CUBE_HALF,
    ensures
        final(canvas).wf(),
        final(canvas).width == WIDTH,
        final(canvas).height == HEIGHT,
        final(canvas).glyphs@ == spec_surface(
            old(canvas).glyphs@,
            old(canvas).depth@,
            cx as int,
            cy as int,
            cz as int,
            *t,
            glyph,
        ).0,
        final(canvas).depth@ == spec_surface(
            old(canvas).glyphs@,
            old(canvas).depth@,
            cx as int,
            cy as int,
            cz as int,
            *t,
            glyph,
        ).1,
{
    let rx = calculate_x(cx, cy, cz, t);
    let ry = calculate_y(cx, cy, cz, t);
    let rz = calculate_z(cx, cy, cz, t) + CAMERA_DISTANCE;
    match project(rx, ry, rz) {
        None => {},
        Some(sp) => {
            canvas.plot(sp.x, sp.y, sp.ooz, glyph);
        },
    }
}

/// The cube-local coordinate of sample `s`, strictly below the far edge.
fn sample_coord(s: usize) -> (r: i64)
    requires
        s < SAMPLES_PER_AXIS,
    ensures
        r as int == spec_sample_coord(s as int),
        -CUBE_HALF <= r < CUBE_HALF,
{
    -CUBE_HALF + (s as i64) * SAMPLE_STEP
}

/// Draw every sample of every face onto the canvas, in grid order.
fn sample_all(canvas: &mut Canvas, t: &Trig)
    requires
        old(canvas).wf(),
        old(canvas).width == WIDTH,
        old(canvas).height == HEIGHT,
        t.wf(),
    ensures
        final(canvas).wf(),
        final(canvas).width == WIDTH,
        final(canvas).height == HEIGHT,
        final(canvas).glyphs@ == spec_sample_upto(
            old(canvas).glyphs@,
            old(canvas).depth@,
            *t,
            SAMPLES_TOTAL as nat,
        ).0,
        final(canvas).depth@ == spec_sample_upto(
            old(canvas).glyphs@,
            old(canvas).depth@,
            *t,
            SAMPLES_TOTAL as nat,
        ).1,
{
    let ghost g0 = canvas.glyphs@;
    let ghost d0 = canvas.depth@;
    let mut k: usize = 0;
    while k < SAMPLES_TOTAL
        invariant
            canvas.wf(),
            canvas.width == WIDTH,
            canvas.height == HEIGHT,
            t.wf(),
            k <= SAMPLES_TOTAL,
            canvas.glyphs@ == spec_sample_upto(g0, d0, *t, k as nat).0,
            canvas.depth@ == spec_sample_upto(g0, d0, *t, k as nat).1,
        decreases SAMPLES_TOTAL - k,
    {
        let i: usize = k / SAMPLES_PER_AXIS;
        let j: usize = k % SAMPLES_PER_AXIS;
        let cx = sample_coord(i);
        let cy = sample_coord(j);
        calculate_for_surface(canvas, cx, cy, -CUBE_HALF, t, '.');
        calculate_for_surface(canvas, CUBE_HALF, cy, cx, t, '#');
        calculate_for_surface(canvas, -CUBE_HALF, cy, -cx, t, '~');
        calculate_for_surface(canvas, -cx, cy, CUBE_HALF, t, '$');
        calculate_for_surface(canvas, cx, CUBE_HALF, -cy, t, ';');
        calculate_for_surface(canvas, cx, -CUBE_HALF, cy, t, '+');
        k = k + 1;
    }
}

/// The render context: one canvas and the three rotation angles.
pub struct Renderer {
    pub canvas: Canvas,
    pub angles: Angles,
}

impl Renderer {
    /// The canvas spans the fixed screen and the angles are reduced.
    pub open spec fn wf(self) -> bool {
        self.canvas.wf() && self.canvas.width == WIDTH && self.canvas.height == HEIGHT
            && self.angles.wf()
    }

    /// A renderer at the start of the demo: blank canvas, all angles zero.
    pub fn new() -> (r: Renderer)
        ensures
            r.wf(),
            r.angles == (Angles { a: 0, b: 0, c: 0 }),
            forall|i: int| 0 <= i < r.canvas.glyphs@.len() ==> r.canvas.glyphs@[i]
                == BACKGROUND_GLYPH,
            forall|i: int| 0 <= i < r.canvas.depth@.len() ==> r.canvas.depth@[i] == 0i64,
    {
        Renderer { canvas: Canvas::new(WIDTH, HEIGHT), angles: Angles::new() }
    }

    /// Draw one frame: reset both buffers, then run the full sample pass.
    /// The resulting buffers are exactly `spec_frame` of the current angles;
    /// the angles themselves are untouched.
    pub fn render_frame(&mut self)
        requires
            old(self).wf(),
        ensures
            final(self).wf(),
            final(self).angles == old(self).angles,
            final(self).canvas.glyphs@ == spec_frame(old(self).angles).0,
            final(self).canvas.depth@ == spec_frame(old(self).angles).1,
    {
        self.canvas.clear();
        proof {
            assert(self.canvas.glyphs@ =~= spec_blank_glyphs());
            assert(self.canvas.depth@ =~= spec_blank_depth());
        }
        let t = Trig::from_angles(&self.angles);
        sample_all(&mut self.canvas, &t);
    }

    /// Advance the rotation by one frame; the canvas is untouched.
    pub fn advance(&mut self)
        requires
            old(self).wf(),
        ensures
            final(self).wf(),
            final(self).canvas == old(self).canvas,
            final(self).angles == old(self).angles.spec_advanced(),
    {
        self.angles.advance();
    }
}

/// Frame determinism: the frame a render pass draws is a function of the
/// rotation angles alone, so two renderers with identical angles draw
/// byte-identical glyph buffers (and identical depth buffers), whatever
/// their canvases held before the pass.
pub proof fn lemma_frame_deterministic(r1: Renderer, r2: Renderer)
    requires
        r1.angles == r2.angles,
    ensures
        spec_frame(r1.angles).0 == spec_frame(r2.angles).0,
        spec_frame(r1.angles).1 == spec_frame(r2.angles).1,
{
}

} // verus!
