//! A fixed-timestep platformer simulation: objects, tile collision and
//! per-kind behaviours, on a fixed-point pixel model.
//!
//! Positions are whole pixels; velocities and the sub-pixel remainder are in
//! hundredths of a pixel, so that fractional speeds accumulate exactly.

pub mod celeste;
pub mod object;
pub mod objects;
pub mod structures;
pub mod tick;
pub mod utils;
