//! Deterministic rollback simulation core for a peer-to-peer arena game.
//!
//! Every peer advances the same authoritative game state from the same
//! per-player inputs, tick by tick.  The engine is a pure function of the
//! state it is given: all arithmetic is integer arithmetic, every iteration
//! runs in a fixed order (ascending player handle, ascending spawn id), and
//! every random draw comes from a generator seeded identically on all peers.
//! A cheap per-entity checksum is recomputed each tick so that the host can
//! compare state fingerprints across peers.
//!
//! Positions are measured in sub-pixel units: one pixel is `UNITS_PER_PIXEL`
//! units, so that a displacement of `speed / FPS` pixels per tick is the
//! integer `speed` in units per tick.

#![verifier::loop_isolation(false)]

use vstd::prelude::*;

pub mod checksum;
pub mod combat;
pub mod economy;
pub mod input;
pub mod laws;
pub mod map;
pub mod movement;
pub mod rng;
pub mod round;
pub mod state;

verus! {

/// Simulation ticks per second.  The per-tick displacement of a player is
/// `speed` position units because one unit is a sixtieth of a pixel.
pub const FPS: u64 = 60;

/// Milliseconds added to every timer each tick (1000 / FPS, truncated).
pub const FIXED_TICK_MS: u32 = 16;

/// Sub-pixel position units per pixel.
pub const UNITS_PER_PIXEL: i64 = 60;

/// Side length of one map tile, in position units (32 pixels).
pub const TILE_SIZE: i64 = 1920;

} // verus!
