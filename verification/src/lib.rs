//! A rotating ASCII-art cube renderer, built on fixed-point integer
//! arithmetic so that every step of the pipeline — rotation, perspective
//! projection, and depth-tested rasterization — carries a proved contract.
//!
//! World-space lengths are measured in ticks of `1 / SCALE` units, angles in
//! ticks of `1 / TURN` of a full revolution, and inverse depth in ticks of
//! `1 / OOZ_SCALE`.  The host program only clears the terminal, prints the
//! finished rows, and paces the frames.

pub mod params;
pub mod angles;
pub mod transform;
pub mod project;
pub mod raster;
pub mod frame;
