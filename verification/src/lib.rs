//! Steering and population rules for a small predator and prey arena.
//!
//! Every quantity is a fixed-point number: an `i32` counting thousandths of a
//! world unit (or of a second, or of a radian). Results that leave the range of
//! `i32` saturate at its ends.

pub mod fixed;
pub mod vector;
pub mod utils;
pub mod angle;
pub mod steering;
pub mod components;
pub mod motion;
mod random;
pub mod wolf;
pub mod player;
pub mod predation;
pub mod hare;
pub mod deer;
pub mod world;
