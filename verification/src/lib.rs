//! Core of a 2D sprite renderer: quad batching with automatic draw-call
//! splitting, a blend-mode algebra expressed as GPU blend-factor pairs,
//! a frame-accurate animation timer, texture premultiplication, and the
//! integer-exact parts of the atlas/projection math.
//!
//! GPU resources, windowing and file I/O live outside this crate; the
//! library computes the values (vertex runs, draw commands, blend factor
//! tables, projection entries, texel bytes) that such a backend consumes.

pub mod animation;
pub mod batch;
pub mod blend;
pub mod image;
pub mod math;
pub mod rng;
pub mod utils;
