//! The integer side of a small 2D animation pipeline: one quadratic curve
//! morphs into another, every frame is rasterized and streamed to a video
//! encoder as raw pixels.
//!
//! This crate holds what can be decided without real arithmetic: how many
//! frames a run has, in which order the renderer and the encoder are driven,
//! how the encoder is invoked, and how its failures are reported. Curve
//! evaluation and easing work on machine reals and live with the caller.

use vstd::prelude::*;

pub mod decimal;
pub mod easing;
pub mod ffmpeg;
pub mod producer;

verus! {

/// Number of evenly spaced parameter values at which a curve is sampled when
/// it is stroked as a polyline: sample `k` lies at `k / BEZIER_PRECISION_ROUNDS`
/// for `0 <= k < BEZIER_PRECISION_ROUNDS`.
pub const BEZIER_PRECISION_ROUNDS: i32 = 35;

} // verus!
