//! The fixed tunables of the demo: cube size, screen size, camera placement,
//! projection scale, rotation speed, and the fixed-point scales everything is
//! measured in.

use vstd::prelude::*;

verus! {

/// One world-space unit is `SCALE` ticks; all lengths are `i64` tick counts.
pub const SCALE: i64 = 1024;

/// `SCALE * SCALE * SCALE`, the divisor that brings a sum of four-factor
/// products back down to a single `SCALE`.
pub const SCALE_CUBED: i64 = 1024 * 1024 * 1024;

/// Half the cube's edge, in ticks (16 units): samples run over
/// `[-CUBE_HALF, CUBE_HALF)` on two axes while the third is pinned to a face.
pub const CUBE_HALF: i64 = 16 * SCALE;

/// Distance between two neighbouring surface samples, in ticks (0.6 units).
pub const SAMPLE_STEP: i64 = 614;

/// Number of samples per axis: the least n with `n * SAMPLE_STEP >= 2 * CUBE_HALF`.
pub const SAMPLES_PER_AXIS: usize = 54;

/// Total samples of one face pass, `SAMPLES_PER_AXIS` squared.
pub const SAMPLES_TOTAL: usize = 54 * 54;

/// How far the camera sits in front of the cube's centre, in ticks (100 units).
pub const CAMERA_DISTANCE: i64 = 100 * SCALE;

/// The projection constant K1: screen offsets are `K1 * coordinate * ooz`.
pub const PROJECTION_K1: i64 = 40;

/// One unit of inverse depth is `OOZ_SCALE` ticks; depth-buffer entries are
/// `i64` counts of these ticks.
pub const OOZ_SCALE: i64 = 1024 * 1024;

/// Largest representable inverse depth, reached when camera-space z is one tick.
pub const OOZ_MAX: i64 = 1024 * 1024 * 1024;

/// Screen width in character cells.
pub const WIDTH: usize = 60;

/// Screen height in character cells.
pub const HEIGHT: usize = 26;

/// The glyph every cell is reset to before a frame is drawn.
pub const BACKGROUND_GLYPH: char = ' ';

/// Angles are measured in ticks of `1 / TURN` of a full revolution.
pub const TURN: u32 = 4096;

/// Half a revolution, in angle ticks.
pub const HALF_TURN: u32 = 2048;

/// A quarter revolution, in angle ticks.
pub const QUARTER_TURN: u32 = 1024;

/// Per-frame increment of the first rotation angle, in angle ticks.
pub const DELTA_A: u32 = 33;

/// Per-frame increment of the second rotation angle, in angle ticks.
pub const DELTA_B: u32 = 33;

/// Per-frame increment of the third rotation angle, in angle ticks.
pub const DELTA_C: u32 = 7;

} // verus!
