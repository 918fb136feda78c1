//! Core of a small streaming-audio player: a playback-transport state
//! machine that drives an external media backend through fire-and-forget
//! requests, a deterministic visualization tick engine with rotating
//! patterns and color schemes, and the parsing of a resolved stream URL.
//!
//! Everything real-valued (bar heights, volume) is carried in fixed-point
//! integers so that the whole engine can be specified and verified over
//! plain arithmetic; the unverified shell converts at the edges.

use vstd::prelude::*;

pub mod player;
pub mod resolve;
pub mod sine;
pub mod visual;

verus! {

/// Number of bars in the visualization.
pub const NUM_BARS: usize = 15;

/// Fixed-point scale for bar levels: `BAR_SCALE` stands for a height of 1.0.
pub const BAR_SCALE: u32 = 1_000_000;

} // verus!
