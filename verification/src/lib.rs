//! A deterministic, bounded-memory snake simulation: fixed-capacity state
//! containers, a debounced direction queue, a seeded food allocator, and the
//! movement/collision engine, each with a verified contract.

pub mod container;
pub mod engine;
pub mod geometry;
pub mod input;
pub mod laws;
pub mod program;
pub mod render;
pub mod rng;
pub mod timing;

use vstd::prelude::*;

verus! {

/// Number of columns on the playing field, 1-indexed.
pub const GAME_WIDTH: u8 = 20;

/// Number of rows on the playing field, 1-indexed.
pub const GAME_HEIGHT: u8 = 10;

/// Number of body segments a fresh snake starts with.
pub const STARTING_LENGTH: u8 = 4;

/// Minimum counter delta that must elapse before the next simulation tick.
pub const TICK_QUANTUM: u8 = 5;

/// Most pending direction requests the input queue holds at once.
pub const INPUT_QUEUE_DEPTH: usize = 2;

} // verus!
