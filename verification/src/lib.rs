//! A fixed-capacity particle simulation benchmark core.
//!
//! A bounded pool of particles is driven frame by frame: spawning at a fixed
//! rate, Euler integration under gravity and a random-walked wind field,
//! energy-gaining boundary bounces, and periodic low-water-mark compaction.
//! Per-frame wall-clock and GPU-submission durations are recorded after a
//! warm-up window and reduced to mean frame rate, mean CPU time and the
//! standard deviation of the instantaneous frame rates.
//!
//! All continuous quantities are fixed-point numbers: an `i64` counts
//! millionths of the unit (seconds, world units, units per second).
//! Arithmetic saturates at the `i64` range and division truncates toward
//! zero, so every operation is total and every result is pinned exactly.

pub mod fx;
pub mod pool;
pub mod rng;
pub mod scene;
pub mod sim;
pub mod stats;
pub mod wind;
