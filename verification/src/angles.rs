//! Rotation state and fixed-point trigonometry.
//!
//! Angles are integers counting ticks of `1 / TURN` of a revolution.  Sine and
//! cosine are rational approximations whose exact value is pinned down by
//! `spec_sine_half`: on half a turn it is the classic quadratic-ratio
//! approximation, scaled so that results lie in `[-SCALE, SCALE]` and hit the
//! extremes exactly at the quarter turns.

use vstd::prelude::*;
use vstd::arithmetic::div_mod::{
    lemma_add_mod_noop, lemma_div_is_ordered, lemma_div_multiples_vanish, lemma_small_mod,
};
use crate::params::{DELTA_A, DELTA_B, DELTA_C, HALF_TURN, QUARTER_TURN, SCALE, TURN};

verus! {

/// Approximate sine on `[0, HALF_TURN]` angle ticks, scaled by `SCALE`:
/// the ratio `16 S p / (5 H^2 - 4 p)` with `p = t (H - t)`, which is `0` at
/// both ends and exactly `SCALE` at the quarter turn.
pub open spec fn spec_sine_half(t: int) -> int {
    let p = t * (HALF_TURN - t);
    (16 * SCALE * p) / (5 * HALF_TURN * HALF_TURN - 4 * p)
}

/// Sine of an angle in ticks, scaled by `SCALE`; the angle is first reduced
/// modulo a full turn, and the second half-turn is the negated first.
pub open spec fn spec_sine(u: int) -> int {
    let t = u % (TURN as int);
    if t < HALF_TURN {
        spec_sine_half(t)
    } else {
        -spec_sine_half(t - HALF_TURN)
    }
}

/// Cosine is sine shifted a quarter turn forward.
pub open spec fn spec_cosine(u: int) -> int {
    spec_sine(u + QUARTER_TURN)
}

fn sine_half_ticks(t: u32) -> (r: i64)
    requires
        t <= HALF_TURN,
    ensures
        r as int == spec_sine_half(t as int),
        0 <= r <= SCALE,
{
    let td: u64 = t as u64;
    let arch: u64 = (HALF_TURN as u64) - td;
    proof {
        assert(td * arch <= 1048576) by (nonlinear_arith)
            requires
                td <= 2048,
                arch == 2048 - td,
        ;
    }
    let p: u64 = td * arch;
    let num: u64 = 16384 * p;
    let den: u64 = 20971520 - 4 * p;
    let q: u64 = num / den;
    proof {
        assert(num <= 1024 * den);
        lemma_div_is_ordered(num as int, 1024 * (den as int), den as int);
        lemma_div_multiples_vanish(1024, den as int);
    }
    q as i64
}

/// Sine of an angle within one turn, scaled by `SCALE`.
pub fn sine_ticks(u: u32) -> (r: i64)
    requires
        u < TURN,
    ensures
        r as int == spec_sine(u as int),
        -SCALE <= r <= SCALE,
{
    proof {
        lemma_small_mod(u as nat, TURN as nat);
    }
    if u < HALF_TURN {
        sine_half_ticks(u)
    } else {
        let r = sine_half_ticks(u - HALF_TURN);
        -r
    }
}

/// Cosine of an angle within one turn, scaled by `SCALE`.
pub fn cosine_ticks(u: u32) -> (r: i64)
    requires
        u < TURN,
    ensures
        r as int == spec_cosine(u as int),
        -SCALE <= r <= SCALE,
{
    let v: u32 = if u >= TURN - QUARTER_TURN {
        u - (TURN - QUARTER_TURN)
    } else {
        u + QUARTER_TURN
    };
    proof {
        if u >= TURN - QUARTER_TURN {
            assert((u as int + QUARTER_TURN) % (TURN as int) == v as int) by (nonlinear_arith)
                requires
                    3072 <= u < 4096,
                    v == u - 3072,
            ;
        } else {
            lemma_small_mod((u + QUARTER_TURN) as nat, TURN as nat);
        }
        lemma_small_mod(v as nat, TURN as nat);
    }
    sine_ticks(v)
}

/// The three Euler angles of the tumbling cube, in angle ticks.
#[derive(Clone, Copy, PartialEq, Eq, Structural, Debug)]
pub struct Angles {
    pub a: u32,
    pub b: u32,
    pub c: u32,
}

impl Angles {
    /// Every angle is reduced: strictly below one full turn.
    pub open spec fn wf(self) -> bool {
        self.a < TURN && self.b < TURN && self.c < TURN
    }

    /// The angles one frame later: each advanced by its own fixed increment,
    /// reduced modulo a full turn.
    pub open spec fn spec_advanced(self) -> Angles {
        Angles {
            a: (((self.a + DELTA_A) as int % (TURN as int)) as u32),
            b: (((self.b + DELTA_B) as int % (TURN as int)) as u32),
            c: (((self.c + DELTA_C) as int % (TURN as int)) as u32),
        }
    }

    /// The angles `n` frames later.
    pub open spec fn spec_advanced_n(self, n: nat) -> Angles
        decreases n,
    {
        if n == 0 {
            self
        } else {
            self.spec_advanced_n((n - 1) as nat).spec_advanced()
        }
    }

    /// The initial state: all three angles at zero.
    pub fn new() -> (r: Angles)
        ensures
            r == (Angles { a: 0, b: 0, c: 0 }),
            r.wf(),
    {
        Angles { a: 0, b: 0, c: 0 }
    }

    /// Advance the rotation by one frame.
    pub fn advance(&mut self)
        requires
            old(self).wf(),
        ensures
            final(self).wf(),
            *final(self) == old(self).spec_advanced(),
            final(self).a as int == (old(self).a + DELTA_A) % (TURN as int),
            final(self).b as int == (old(self).b + DELTA_B) % (TURN as int),
            final(self).c as int == (old(self).c + DELTA_C) % (TURN as int),
    {
        self.a = (self.a + DELTA_A) % TURN;
        self.b = (self.b + DELTA_B) % TURN;
        self.c = (self.c + DELTA_C) % TURN;
    }
}

/// Rotation is monotone: after `n` frames each angle equals its initial value
/// plus `n` times its fixed per-frame increment, reduced modulo a full turn.
pub proof fn lemma_rotation_after_frames(s: Angles, n: nat)
    requires
        s.wf(),
    ensures
        s.spec_advanced_n(n).wf(),
        s.spec_advanced_n(n).a as int == (s.a + n * DELTA_A) % (TURN as int),
        s.spec_advanced_n(n).b as int == (s.b + n * DELTA_B) % (TURN as int),
        s.spec_advanced_n(n).c as int == (s.c + n * DELTA_C) % (TURN as int),
    decreases n,
{
    if n == 0 {
        lemma_small_mod(s.a as nat, TURN as nat);
        lemma_small_mod(s.b as nat, TURN as nat);
        lemma_small_mod(s.c as nat, TURN as nat);
    } else {
        let m = (n - 1) as nat;
        lemma_rotation_after_frames(s, m);
        lemma_small_mod(DELTA_A as nat, TURN as nat);
        lemma_small_mod(DELTA_B as nat, TURN as nat);
        lemma_small_mod(DELTA_C as nat, TURN as nat);
        lemma_add_mod_noop(s.a + m * DELTA_A, DELTA_A as int, TURN as int);
        lemma_add_mod_noop(s.b + m * DELTA_B, DELTA_B as int, TURN as int);
        lemma_add_mod_noop(s.c + m * DELTA_C, DELTA_C as int, TURN as int);
        assert(s.a + m * DELTA_A + DELTA_A == s.a + n * DELTA_A) by (nonlinear_arith)
            requires
                m == n - 1,
        ;
        assert(s.b + m * DELTA_B + DELTA_B == s.b + n * DELTA_B) by (nonlinear_arith)
            requires
                m == n - 1,
        ;
        assert(s.c + m * DELTA_C + DELTA_C == s.c + n * DELTA_C) by (nonlinear_arith)
            requires
                m == n - 1,
        ;
    }
}

} // verus!
