//! Perspective projection of a rotated, camera-translated point onto the
//! character grid.
//!
//! The inverse depth `ooz` is `1 / z` in `OOZ_SCALE` ticks; a larger value
//! means closer to the camera.  A point at or behind the camera plane
//! (`z <= 0`) has no finite projection and is discarded outright, so the
//! inverse depth handed onward is always positive and the depth test below
//! can never be corrupted by it.

use vstd::prelude::*;
use crate::params::{HEIGHT, OOZ_MAX, OOZ_SCALE, PROJECTION_K1, SCALE, WIDTH};
use crate::transform::div_trunc;

verus! {

/// A projected sample: a screen cell column and row (possibly out of the
/// grid) and the positive inverse depth of the point it came from.
#[derive(Clone, Copy, PartialEq, Eq, Structural, Debug)]
pub struct ScreenPoint {
    pub x: i64,
    pub y: i64,
    pub ooz: i64,
}

/// Inverse depth of camera-space `z > 0`, in `OOZ_SCALE` ticks:
/// `1 / (z / SCALE)` scaled by `OOZ_SCALE`, truncated.
pub open spec fn spec_ooz(z: int) -> int {
    (OOZ_SCALE * SCALE) / z
}

/// Screen column of a point with rotated x-coordinate `x` at depth `z > 0`:
/// the grid's horizontal centre plus `K1 * x * ooz * 2`, truncated.
pub open spec fn spec_screen_x(x: int, z: int) -> int {
    WIDTH / 2 + div_trunc(PROJECTION_K1 * x * spec_ooz(z) * 2, SCALE * OOZ_SCALE)
}

/// Screen row of a point with rotated y-coordinate `y` at depth `z > 0`:
/// the grid's vertical centre plus `K1 * y * ooz`, truncated.
pub open spec fn spec_screen_y(y: int, z: int) -> int {
    HEIGHT / 2 + div_trunc(PROJECTION_K1 * y * spec_ooz(z), SCALE * OOZ_SCALE)
}

/// What `project` returns: a screen point for positive depth, nothing for a
/// point at or behind the camera plane.
pub open spec fn spec_project(x: int, y: int, z: int) -> Option<ScreenPoint> {
    if z <= 0 {
        None
    } else {
        Some(
            ScreenPoint {
                x: spec_screen_x(x, z) as i64,
                y: spec_screen_y(y, z) as i64,
                ooz: spec_ooz(z) as i64,
            },
        )
    }
}

/// Project a rotated, camera-translated point onto the grid.  Exactly the
/// points with positive depth project; their inverse depth is positive
/// whenever `z` does not exceed one inverse-depth tick's worth of distance.
pub fn project(x: i64, y: i64, z: i64) -> (r: Option<ScreenPoint>)
    requires
        -81920 <= x <= 81920,
        -81920 <= y <= 81920,
    ensures
        r == spec_project(x as int, y as int, z as int),
        (r is Some) <==> z > 0,
        (match r {
            Some(sp) => 0 <= sp.ooz <= OOZ_MAX && (z <= OOZ_MAX ==> 0 < sp.ooz),
            None => true,
        }),
{
    if z <= 0 {
        return None;
    }
    let ooz: i64 = (OOZ_SCALE * SCALE) / z;
    proof {
        vstd::arithmetic::div_mod::lemma_div_pos_is_pos(OOZ_MAX as int, z as int);
        vstd::arithmetic::div_mod::lemma_div_is_ordered_by_denominator(OOZ_MAX as int, 1, z as int);
        vstd::arithmetic::div_mod::lemma_div_nonincreasing(OOZ_MAX as int, z as int);
        if z <= OOZ_MAX {
            vstd::arithmetic::div_mod::lemma_div_is_ordered(z as int, OOZ_MAX as int, z as int);
            vstd::arithmetic::div_mod::lemma_div_by_self(z as int);
        }
        assert(-3276800 <= PROJECTION_K1 * x <= 3276800);
        assert(
            -3518437208883200 <= PROJECTION_K1 * x * ooz <= 3518437208883200
        ) by (nonlinear_arith)
            requires
                -3276800 <= PROJECTION_K1 * x <= 3276800,
                0 <= ooz <= 1073741824,
        ;
        assert(-3276800 <= PROJECTION_K1 * y <= 3276800);
        assert(
            -3518437208883200 <= PROJECTION_K1 * y * ooz <= 3518437208883200
        ) by (nonlinear_arith)
            requires
                -3276800 <= PROJECTION_K1 * y <= 3276800,
                0 <= ooz <= 1073741824,
        ;
    }
    let sx: i64 = (WIDTH as i64) / 2 + (PROJECTION_K1 * x * ooz * 2) / (SCALE * OOZ_SCALE);
    let sy: i64 = (HEIGHT as i64) / 2 + (PROJECTION_K1 * y * ooz) / (SCALE * OOZ_SCALE);
    Some(ScreenPoint { x: sx, y: sy, ooz })
}

} // verus!
