//! Scene-graph transform and animation engine.
//!
//! The library computes, for a hierarchical scene of nodes, the world-space
//! matrix of every node and the skinning matrices of every skeleton binding,
//! from authored local transforms and keyframe animation clips.
//!
//! All arithmetic is exact fixed-point: a scalar is an `i64` holding the real
//! value times `fixed::FX_ONE`, and every operation is specified to the last
//! unit, so results are fully deterministic.

pub mod fixed;

pub mod math;

pub mod transform;

pub mod animation;

pub mod playback;

pub mod scene;

pub mod settings;

