use ascii_cube::angles::{cosine_ticks, sine_ticks, Angles};
use ascii_cube::params::{DELTA_A, DELTA_B, DELTA_C, SCALE, TURN};

#[test]
fn sine_hits_the_cardinal_points() {
    assert_eq!(sine_ticks(0), 0);
    assert_eq!(sine_ticks(1024), SCALE);
    assert_eq!(sine_ticks(2048), 0);
    assert_eq!(sine_ticks(3072), -SCALE);
}

#[test]
fn cosine_is_sine_shifted_a_quarter_turn() {
    assert_eq!(cosine_ticks(0), SCALE);
    assert_eq!(cosine_ticks(1024), 0);
    assert_eq!(cosine_ticks(2048), -SCALE);
    assert_eq!(cosine_ticks(3072), 0);
    for u in 0..3072u32 {
        assert_eq!(cosine_ticks(u), sine_ticks(u + 1024));
    }
}

#[test]
fn sine_mid_octant_value() {
    // p = 512 * 1536, so 16384 p / (20971520 - 4 p) truncates to 722.
    assert_eq!(sine_ticks(512), 722);
    assert_eq!(sine_ticks(1536), 722);
    assert_eq!(sine_ticks(2560), -722);
}

#[test]
fn sine_stays_within_one_scale_unit_and_is_odd_under_half_turns() {
    for u in 0..2048u32 {
        let s = sine_ticks(u);
        assert!(-SCALE <= s && s <= SCALE);
        assert_eq!(sine_ticks(u + 2048), -s);
    }
}

#[test]
fn rotation_advances_by_fixed_increments() {
    let mut an = Angles::new();
    assert_eq!((an.a, an.b, an.c), (0, 0, 0));
    an.advance();
    assert_eq!((an.a, an.b, an.c), (DELTA_A, DELTA_B, DELTA_C));
    an.advance();
    assert_eq!((an.a, an.b, an.c), (2 * DELTA_A, 2 * DELTA_B, 2 * DELTA_C));
}

#[test]
fn rotation_after_n_frames_is_initial_plus_n_increments_mod_turn() {
    let mut an = Angles { a: 4000, b: 17, c: 4095 };
    let n: u32 = 200;
    for _ in 0..n {
        an.advance();
    }
    assert_eq!(an.a, (4000 + n * DELTA_A) % TURN);
    assert_eq!(an.b, (17 + n * DELTA_B) % TURN);
    assert_eq!(an.c, (4095 + n * DELTA_C) % TURN);
}

#[test]
fn rotation_wraps_around_a_full_turn() {
    let mut an = Angles { a: TURN - 1, b: TURN - DELTA_B, c: TURN - 1 };
    an.advance();
    assert_eq!(an.a, (TURN - 1 + DELTA_A) % TURN);
    assert_eq!(an.b, 0);
    assert_eq!(an.c, (TURN - 1 + DELTA_C) % TURN);
    assert!(an.a < TURN && an.b < TURN && an.c < TURN);
}
