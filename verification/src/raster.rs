//! The frame buffer, its paired depth buffer, and the depth-tested write.
//!
//! Both buffers have one entry per screen cell, row-major.  A candidate write
//! lands only when its cell lies inside the grid on both axes and its inverse
//! depth strictly exceeds the value stored for the cell; everything else is
//! silently discarded, leaving both buffers untouched.

use vstd::prelude::*;
use crate::params::BACKGROUND_GLYPH;

verus! {

/// Row-major cell index of column `x`, row `y` on a grid `w` cells wide.
pub open spec fn spec_cell_index(w: int, x: int, y: int) -> int {
    y * w + x
}

/// Whether column `x`, row `y` lies inside a `w` by `h` grid on both axes.
pub open spec fn spec_in_bounds(w: int, h: int, x: int, y: int) -> bool {
    0 <= x < w && 0 <= y < h
}

/// The glyph buffer after a candidate write: updated at the cell exactly when
/// the cell is in bounds and the new inverse depth beats the stored one.
pub open spec fn spec_plot_glyphs(
    g: Seq<char>,
    d: Seq<i64>,
    w: int,
    h: int,
    x: int,
    y: int,
    ooz: i64,
    glyph: char,
) -> Seq<char> {
    if spec_in_bounds(w, h, x, y) && ooz > d[spec_cell_index(w, x, y)] {
        g.update(spec_cell_index(w, x, y), glyph)
    } else {
        g
    }
}

/// The depth buffer after a candidate write, under the same condition.
pub open spec fn spec_plot_depth(
    d: Seq<i64>,
    w: int,
    h: int,
    x: int,
    y: int,
    ooz: i64,
) -> Seq<i64> {
    if spec_in_bounds(w, h, x, y) && ooz > d[spec_cell_index(w, x, y)] {
        d.update(spec_cell_index(w, x, y), ooz)
    } else {
        d
    }
}

/// An in-bounds cell's row-major index lies inside a `w * h` buffer.
pub proof fn lemma_cell_index_in_range(w: int, h: int, x: int, y: int)
    requires
        spec_in_bounds(w, h, x, y),
    ensures
        0 <= spec_cell_index(w, x, y) < w * h,
{
    assert(0 <= y * w + x < w * h) by (nonlinear_arith)
        requires
            0 <= x < w,
            0 <= y < h,
    ;
}

/// The character grid of one frame: a glyph and a largest-seen inverse depth
/// for every cell, row-major.
pub struct Canvas {
    pub width: usize,
    pub height: usize,
    pub glyphs: Vec<char>,
    pub depth: Vec<i64>,
}

impl Canvas {
    /// Both buffers always span exactly the grid, cell for cell, and the grid
    /// itself stays small enough that every index computation fits.
    pub open spec fn wf(self) -> bool {
        self.glyphs.len() == self.width * self.height && self.depth.len() == self.width
            * self.height && self.width <= 4096 && self.height <= 4096
    }

    /// A fresh canvas: every cell holds the background glyph at depth zero.
    pub fn new(width: usize, height: usize) -> (c: Canvas)
        requires
            width <= 4096,
            height <= 4096,
        ensures
            c.wf(),
            c.width == width,
            c.height == height,
            c.glyphs@.len() == width * height,
            forall|i: int| 0 <= i < c.glyphs@.len() ==> c.glyphs@[i] == BACKGROUND_GLYPH,
            forall|i: int| 0 <= i < c.depth@.len() ==> c.depth@[i] == 0i64,
    {
        proof {
            assert(width * height <= 4096 * 4096) by (nonlinear_arith)
                requires
                    width <= 4096,
                    height <= 4096,
            ;
        }
        let n: usize = width * height;
        let mut glyphs: Vec<char> = Vec::new();
        let mut depth: Vec<i64> = Vec::new();
        let mut i: usize = 0;
        while i < n
            invariant
                i <= n,
                glyphs@.len() == i,
                depth@.len() == i,
                forall|j: int| 0 <= j < i ==> glyphs@[j] == BACKGROUND_GLYPH,
                forall|j: int| 0 <= j < i ==> depth@[j] == 0i64,
            decreases n - i,
        {
            glyphs.push(BACKGROUND_GLYPH);
            depth.push(0);
            i = i + 1;
        }
        Canvas { width, height, glyphs, depth }
    }

    /// Reset every cell to the background glyph and every depth to zero,
    /// leaving the grid's size unchanged.
    pub fn clear(&mut self)
        requires
            old(self).wf(),
        ensures
            final(self).wf(),
            final(self).width == old(self).width,
            final(self).height == old(self).height,
            final(self).glyphs@.len() == old(self).glyphs@.len(),
            final(self).depth@.len() == old(self).depth@.len(),
            forall|i: int|
                0 <= i < final(self).glyphs@.len() ==> final(self).glyphs@[i] == BACKGROUND_GLYPH,
            forall|i: int| 0 <= i < final(self).depth@.len() ==> final(self).depth@[i] == 0i64,
    {
        let n: usize = self.glyphs.len();
        let mut i: usize = 0;
        while i < n
            invariant
                i <= n,
                self.wf(),
                self.width == old(self).width,
                self.height == old(self).height,
                self.glyphs@.len() == n,
                self.depth@.len() == n,
                forall|j: int| 0 <= j < i ==> self.glyphs@[j] == BACKGROUND_GLYPH,
                forall|j: int| 0 <= j < i ==> self.depth@[j] == 0i64,
            decreases n - i,
        {
            self.glyphs.set(i, BACKGROUND_GLYPH);
            self.depth.set(i, 0);
            i = i + 1;
        }
    }

    /// Commit a candidate write: place `glyph` at cell `(x, y)` and record its
    /// inverse depth, but only if the cell is inside the grid and the write
    /// wins the depth test; any other candidate leaves both buffers unchanged.
    pub fn plot(&mut self, x: i64, y: i64, ooz: i64, glyph: char)
        requires
            old(self).wf(),
        ensures
            final(self).wf(),
            final(self).width == old(self).width,
            final(self).height == old(self).height,
            final(self).glyphs@ == spec_plot_glyphs(
                old(self).glyphs@,
                old(self).depth@,
                old(self).width as int,
                old(self).height as int,
                x as int,
                y as int,
                ooz,
                glyph,
            ),
            final(self).depth@ == spec_plot_depth(
                old(self).depth@,
                old(self).width as int,
                old(self).height as int,
                x as int,
                y as int,
                ooz,
            ),
            !spec_in_bounds(
                old(self).width as int,
                old(self).height as int,
                x as int,
                y as int,
            ) ==> *final(self) == *old(self),
    {
        if x >= 0 && y >= 0 && x < self.width as i64 && y < self.height as i64 {
            proof {
                lemma_cell_index_in_range(
                    self.width as int,
                    self.height as int,
                    x as int,
                    y as int,
                );
            }
            let idx: usize = (y as usize) * self.width + (x as usize);
            if ooz > self.depth[idx] {
                self.depth.set(idx, ooz);
                self.glyphs.set(idx, glyph);
            }
        }
    }

    /// The glyph at an in-bounds cell.
    pub fn glyph_at(&self, x: usize, y: usize) -> (r: char)
        requires
            self.wf(),
            x < self.width,
            y < self.height,
        ensures
            r == self.glyphs@[spec_cell_index(self.width as int, x as int, y as int)],
    {
        proof {
            lemma_cell_index_in_range(self.width as int, self.height as int, x as int, y as int);
        }
        self.glyphs[y * self.width + x]
    }

    /// The stored inverse depth at an in-bounds cell.
    pub fn depth_at(&self, x: usize, y: usize) -> (r: i64)
        requires
            self.wf(),
            x < self.width,
            y < self.height,
        ensures
            r == self.depth@[spec_cell_index(self.width as int, x as int, y as int)],
    {
        proof {
            lemma_cell_index_in_range(self.width as int, self.height as int, x as int, y as int);
        }
        self.depth[y * self.width + x]
    }

    /// One row of the frame, left to right: the `width` glyphs of row `y`.
    pub fn row_chars(&self, y: usize) -> (r: Vec<char>)
        requires
            self.wf(),
            y < self.height,
        ensures
            r@ == self.glyphs@.subrange(
                y as int * self.width as int,
                (y as int + 1) * self.width as int,
            ),
    {
        proof {
            assert((y as int + 1) * self.width as int == y as int * self.width as int
                + self.width as int) by (nonlinear_arith);
            assert((y as int + 1) * self.width as int <= self.height as int
                * self.width as int) by (nonlinear_arith)
                requires
                    y as int + 1 <= self.height as int,
                    0 <= self.width as int,
            ;
            assert(self.width as int * self.height as int == self.height as int
                * self.width as int) by (nonlinear_arith);
        }
        let base: usize = y * self.width;
        let mut r: Vec<char> = Vec::new();
        let mut i: usize = 0;
        while i < self.width
            invariant
                self.wf(),
                i <= self.width,
                y < self.height,
                base == y * self.width,
                base + self.width <= self.glyphs@.len(),
                r@.len() == i,
                forall|j: int| 0 <= j < i ==> r@[j] == self.glyphs@[base + j],
            decreases self.width - i,
        {
            let ch: char = self.glyphs[base + i];
            r.push(ch);
            i = i + 1;
        }
        proof {
            assert(r@ =~= self.glyphs@.subrange(
                y as int * self.width as int,
                (y as int + 1) * self.width as int,
            ));
        }
        r
    }
}

/// Writing the same candidate twice is the same as writing it once: the first
/// write (if it lands) raises the stored depth to the candidate's own, so the
/// strict depth test discards the repetition.
pub proof fn lemma_plot_idempotent(
    g: Seq<char>,
    d: Seq<i64>,
    w: int,
    h: int,
    x: int,
    y: int,
    ooz: i64,
    glyph: char,
)
    requires
        g.len() == w * h,
        d.len() == w * h,
    ensures
        spec_plot_glyphs(
            spec_plot_glyphs(g, d, w, h, x, y, ooz, glyph),
            spec_plot_depth(d, w, h, x, y, ooz),
            w,
            h,
            x,
            y,
            ooz,
            glyph,
        ) == spec_plot_glyphs(g, d, w, h, x, y, ooz, glyph),
        spec_plot_depth(
            spec_plot_depth(d, w, h, x, y, ooz),
            w,
            h,
            x,
            y,
            ooz,
        ) == spec_plot_depth(d, w, h, x, y, ooz),
{
    if spec_in_bounds(w, h, x, y) {
        lemma_cell_index_in_range(w, h, x, y);
    }
}

/// Depth ordering: two candidates for the same cell with strictly ordered
/// inverse depths leave the same buffers whichever lands first, and whenever
/// the nearer one beats the stored depth, its glyph is what remains.
pub proof fn lemma_plot_depth_order(
    g: Seq<char>,
    d: Seq<i64>,
    w: int,
    h: int,
    x: int,
    y: int,
    ooz1: i64,
    glyph1: char,
    ooz2: i64,
    glyph2: char,
)
    requires
        g.len() == w * h,
        d.len() == w * h,
        ooz1 > ooz2,
    ensures
        spec_plot_glyphs(
            spec_plot_glyphs(g, d, w, h, x, y, ooz1, glyph1),
            spec_plot_depth(d, w, h, x, y, ooz1),
            w,
            h,
            x,
            y,
            ooz2,
            glyph2,
        ) == spec_plot_glyphs(
            spec_plot_glyphs(g, d, w, h, x, y, ooz2, glyph2),
            spec_plot_depth(d, w, h, x, y, ooz2),
            w,
            h,
            x,
            y,
            ooz1,
            glyph1,
        ),
        spec_plot_depth(
            spec_plot_depth(d, w, h, x, y, ooz1),
            w,
            h,
            x,
            y,
            ooz2,
        ) == spec_plot_depth(spec_plot_depth(d, w, h, x, y, ooz2), w, h, x, y, ooz1),
        spec_in_bounds(w, h, x, y) && ooz1 > d[spec_cell_index(w, x, y)] ==> spec_plot_glyphs(
            spec_plot_glyphs(g, d, w, h, x, y, ooz2, glyph2),
            spec_plot_depth(d, w, h, x, y, ooz2),
            w,
            h,
            x,
            y,
            ooz1,
            glyph1,
        )[spec_cell_index(w, x, y)] == glyph1,
        spec_in_bounds(w, h, x, y) && ooz1 <= d[spec_cell_index(w, x, y)] ==> spec_plot_glyphs(
            spec_plot_glyphs(g, d, w, h, x, y, ooz2, glyph2),
            spec_plot_depth(d, w, h, x, y, ooz2),
            w,
            h,
            x,
            y,
            ooz1,
            glyph1,
        )[spec_cell_index(w, x, y)] == g[spec_cell_index(w, x, y)],
{
    if spec_in_bounds(w, h, x, y) {
        lemma_cell_index_in_range(w, h, x, y);
        let idx = spec_cell_index(w, x, y);
        if ooz2 > d[idx] {
            assert(g.update(idx, glyph1) =~= g.update(idx, glyph2).update(idx, glyph1));
            assert(d.update(idx, ooz1) =~= d.update(idx, ooz2).update(idx, ooz1));
        }
    }
}

} // verus!
