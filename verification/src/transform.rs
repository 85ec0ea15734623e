//! Rotation of a cube-local point by three Euler angles, in fixed point.
//!
//! A rotated coordinate is a sum of products of one coordinate and up to
//! three trigonometric factors.  Each addend is brought to `SCALE^4` ticks by
//! padding with plain `SCALE` factors, the addends are summed exactly, and a
//! single truncating division by `SCALE^3` brings the result back to `SCALE`
//! ticks — mirroring how the real-valued products collapse to one scale.

use vstd::prelude::*;
use vstd::arithmetic::div_mod::{
    lemma_div_is_ordered, lemma_div_multiples_vanish, lemma_div_pos_is_pos,
};
use crate::angles::{cosine_ticks, sine_ticks, spec_cosine, spec_sine, Angles};
use crate::params::{CUBE_HALF, SCALE, SCALE_CUBED};

verus! {

/// Truncating division shrinks magnitude: a sum within `bound` whole
/// multiples of the divisor divides down to within `bound`.
proof fn lemma_div_trunc_bound(s: int, d: int, bound: int)
    requires
        0 < d,
        0 <= bound,
        -(bound * d) <= s <= bound * d,
    ensures
        -bound <= div_trunc(s, d) <= bound,
{
    assert(bound * d == d * bound) by (nonlinear_arith);
    lemma_div_multiples_vanish(bound, d);
    if s >= 0 {
        lemma_div_is_ordered(s, bound * d, d);
        lemma_div_pos_is_pos(s, d);
    } else {
        lemma_div_is_ordered(-s, bound * d, d);
        lemma_div_pos_is_pos(-s, d);
    }
}

/// Division that truncates toward zero (the rounding of `i64` division),
/// written over the Euclidean `/` of mathematical integers.
pub open spec fn div_trunc(s: int, d: int) -> int {
    if s >= 0 {
        s / d
    } else {
        -((-s) / d)
    }
}

/// The six trigonometric values of three angles, each scaled by `SCALE`.
#[derive(Clone, Copy, PartialEq, Eq, Structural, Debug)]
pub struct Trig {
    pub sin_a: i64,
    pub cos_a: i64,
    pub sin_b: i64,
    pub cos_b: i64,
    pub sin_c: i64,
    pub cos_c: i64,
}

/// The trigonometric values that `Trig::from_angles` computes.
pub open spec fn spec_trig(an: Angles) -> Trig {
    Trig {
        sin_a: spec_sine(an.a as int) as i64,
        cos_a: spec_cosine(an.a as int) as i64,
        sin_b: spec_sine(an.b as int) as i64,
        cos_b: spec_cosine(an.b as int) as i64,
        sin_c: spec_sine(an.c as int) as i64,
        cos_c: spec_cosine(an.c as int) as i64,
    }
}

impl Trig {
    /// Every factor is a scaled sine or cosine, so it lies in `[-SCALE, SCALE]`.
    pub open spec fn wf(self) -> bool {
        -SCALE <= self.sin_a <= SCALE && -SCALE <= self.cos_a <= SCALE
            && -SCALE <= self.sin_b <= SCALE && -SCALE <= self.cos_b <= SCALE
            && -SCALE <= self.sin_c <= SCALE && -SCALE <= self.cos_c <= SCALE
    }

    /// Evaluate the six trigonometric values of the three angles.
    pub fn from_angles(an: &Angles) -> (t: Trig)
        requires
            an.wf(),
        ensures
            t == spec_trig(*an),
            t.wf(),
    {
        Trig {
            sin_a: sine_ticks(an.a),
            cos_a: cosine_ticks(an.a),
            sin_b: sine_ticks(an.b),
            cos_b: cosine_ticks(an.b),
            sin_c: sine_ticks(an.c),
            cos_c: cosine_ticks(an.c),
        }
    }
}

/// The rotated x-coordinate, in `SCALE` ticks, of cube-local `(i, j, k)`.
pub open spec fn spec_rot_x(i: int, j: int, k: int, t: Trig) -> int {
    div_trunc(
        j * t.sin_a * t.sin_b * t.cos_c - k * t.cos_a * t.sin_b * t.cos_c
            + j * t.cos_a * t.sin_c * SCALE + k * t.sin_a * t.sin_c * SCALE
            + i * t.cos_b * t.cos_c * SCALE,
        SCALE_CUBED as int,
    )
}

/// The rotated y-coordinate, in `SCALE` ticks, of cube-local `(i, j, k)`.
pub open spec fn spec_rot_y(i: int, j: int, k: int, t: Trig) -> int {
    div_trunc(
        j * t.cos_a * t.cos_c * SCALE + k * t.sin_a * t.cos_c * SCALE
            - j * t.sin_a * t.sin_b * t.sin_c + k * t.cos_a * t.sin_b * t.sin_c
            - i * t.cos_b * t.sin_c * SCALE,
        SCALE_CUBED as int,
    )
}

/// The rotated z-coordinate, in `SCALE` ticks, of cube-local `(i, j, k)`.
pub open spec fn spec_rot_z(i: int, j: int, k: int, t: Trig) -> int {
    div_trunc(
        k * t.cos_a * t.cos_b * SCALE - j * t.sin_a * t.cos_b * SCALE
            + i * t.sin_b * SCALE * SCALE,
        SCALE_CUBED as int,
    )
}

/// Exact product of a cube-local coordinate and three scaled factors.
fn quad_product(v: i64, s1: i64, s2: i64, s3: i64) -> (r: i64)
    requires
        -CUBE_HALF <= v <= CUBE_HALF,
        -SCALE <= s1 <= SCALE,
        -SCALE <= s2 <= SCALE,
        -SCALE <= s3 <= SCALE,
    ensures
        r as int == v * s1 * s2 * s3,
        -17592186044416 <= r <= 17592186044416,
{
    proof {
        assert(-16777216 <= v * s1 <= 16777216) by (nonlinear_arith)
            requires
                -16384 <= v <= 16384,
                -1024 <= s1 <= 1024,
        ;
    }
    let p1: i64 = v * s1;
    proof {
        assert(-17179869184 <= p1 * s2 <= 17179869184) by (nonlinear_arith)
            requires
                -16777216 <= p1 <= 16777216,
                -1024 <= s2 <= 1024,
        ;
    }
    let p2: i64 = p1 * s2;
    proof {
        assert(-17592186044416 <= p2 * s3 <= 17592186044416) by (nonlinear_arith)
            requires
                -17179869184 <= p2 <= 17179869184,
                -1024 <= s3 <= 1024,
        ;
    }
    p2 * s3
}

/// Rotate cube-local `(i, j, k)` and keep the x-coordinate.
pub fn calculate_x(i: i64, j: i64, k: i64, t: &Trig) -> (r: i64)
    requires
        t.wf(),
        -CUBE_HALF <= i <= CUBE_HALF,
        -CUBE_HALF <= j <= CUBE_HALF,
        -CUBE_HALF <= k <= CUBE_HALF,
    ensures
        r as int == spec_rot_x(i as int, j as int, k as int, *t),
        -5 * CUBE_HALF <= r <= 5 * CUBE_HALF,
{
    let t1 = quad_product(j, t.sin_a, t.sin_b, t.cos_c);
    let t2 = quad_product(k, t.cos_a, t.sin_b, t.cos_c);
    let t3 = quad_product(j, t.cos_a, t.sin_c, SCALE);
    let t4 = quad_product(k, t.sin_a, t.sin_c, SCALE);
    let t5 = quad_product(i, t.cos_b, t.cos_c, SCALE);
    let sum: i64 = t1 - t2 + t3 + t4 + t5;
    proof {
        lemma_div_trunc_bound(sum as int, SCALE_CUBED as int, 5 * CUBE_HALF);
    }
    sum / SCALE_CUBED
}

/// Rotate cube-local `(i, j, k)` and keep the y-coordinate.
pub fn calculate_y(i: i64, j: i64, k: i64, t: &Trig) -> (r: i64)
    requires
        t.wf(),
        -CUBE_HALF <= i <= CUBE_HALF,
        -CUBE_HALF <= j <= CUBE_HALF,
        -CUBE_HALF <= k <= CUBE_HALF,
    ensures
        r as int == spec_rot_y(i as int, j as int, k as int, *t),
        -5 * CUBE_HALF <= r <= 5 * CUBE_HALF,
{
    let t1 = quad_product(j, t.cos_a, t.cos_c, SCALE);
    let t2 = quad_product(k, t.sin_a, t.cos_c, SCALE);
    let t3 = quad_product(j, t.sin_a, t.sin_b, t.sin_c);
    let t4 = quad_product(k, t.cos_a, t.sin_b, t.sin_c);
    let t5 = quad_product(i, t.cos_b, t.sin_c, SCALE);
    let sum: i64 = t1 + t2 - t3 + t4 - t5;
    proof {
        lemma_div_trunc_bound(sum as int, SCALE_CUBED as int, 5 * CUBE_HALF);
    }
    sum / SCALE_CUBED
}

/// Rotate cube-local `(i, j, k)` and keep the z-coordinate.
pub fn calculate_z(i: i64, j: i64, k: i64, t: &Trig) -> (r: i64)
    requires
        t.wf(),
        -CUBE_HALF <= i <= CUBE_HALF,
        -CUBE_HALF <= j <= CUBE_HALF,
        -CUBE_HALF <= k <= CUBE_HALF,
    ensures
        r as int == spec_rot_z(i as int, j as int, k as int, *t),
        -3 * CUBE_HALF <= r <= 3 * CUBE_HALF,
{
    let t1 = quad_product(k, t.cos_a, t.cos_b, SCALE);
    let t2 = quad_product(j, t.sin_a, t.cos_b, SCALE);
    let t3 = quad_product(i, t.sin_b, SCALE, SCALE);
    let sum: i64 = t1 - t2 + t3;
    proof {
        lemma_div_trunc_bound(sum as int, SCALE_CUBED as int, 3 * CUBE_HALF);
    }
    sum / SCALE_CUBED
}

} // verus!
