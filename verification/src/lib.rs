//! Deterministic-rollback networking core for a two-player, tick-driven game.
//!
//! The crate has three layers, leaves first:
//! - [`input`]: capture of local control state into a fixed-width bitmask and
//!   the pure decoding of such a mask back into movement actions;
//! - [`sim`]: the deterministic per-tick transition function over player and
//!   body state, driven by one input mask per player and the tick's collision
//!   records;
//! - [`session`]: the rollback session protocol: confirmed-frame tracking,
//!   input prediction, delay buffering, and resimulation of past ticks when a
//!   late-arriving remote input disagrees with what was predicted.
//!
//! Everything here is pure logic over plain values. The surrounding
//! application owns the actual peer transport, the input device, the physics
//! engine and the renderer, and hands their observations in as arguments.

pub mod input;
pub mod session;
pub mod sim;
