//! Herding simulation: autonomous "cat" agents reacting to a pursuing "dog"
//! and a goal pen inside a bounded 2D arena.
//!
//! All quantities are fixed-point integers: positions and sizes in
//! milli-pixels, durations in milliseconds, speeds in milli-pixels per
//! second, angles in milliradians, and the annoyance accumulator in
//! thousandths of a unit.

pub mod geom;
pub mod rng;
pub mod dog;
pub mod cat;
pub mod world;
pub mod sounds;
pub mod laws;
