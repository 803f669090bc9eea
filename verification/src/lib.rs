//! A frame-driven controller for a single 2D platformer character.
//!
//! Every quantity is an integer. Time is counted in nanoseconds and lengths in
//! sub-units, one billionth of a world unit, so that a speed in whole units
//! per second multiplied by a time in nanoseconds is a length in sub-units with
//! no rounding at all.

pub mod config;
pub mod controller;
pub mod input;
pub mod jump;
pub mod movement;
pub mod timer;
