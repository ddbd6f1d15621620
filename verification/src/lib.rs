//! Core model of a falling-block puzzle game: the tetromino piece catalog
//! (shape, orientation, bounding size, display color), random piece spawning,
//! the board layout constants, and the bounded horizontal translation step
//! that the per-frame input system performs.

use vstd::prelude::*;

pub mod config;
pub mod motion;
pub mod score;
pub mod tetronimo;

verus! {

/// Side length of one board cell, in pixels.
pub const BLOCK_WIDTH: u32 = 20;

} // verus!
