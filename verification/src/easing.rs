//! The easing strategies a caller can choose between.
//!
//! A strategy remaps normalized time to eased progress. Each one is a
//! stateless marker: evaluating it is real arithmetic and is implemented by
//! the code that draws, which selects a strategy per call by naming its type.

use vstd::prelude::*;

verus! {

/// Quartic ease-in-out: `8 t^4` below one half, `1 - (2 - 2t)^4 / 2` from there on.
#[derive(Clone, Copy, Debug, PartialEq, Eq, Structural)]
pub struct EaseInOutQuart;

/// Quintic ease-in-out: `16 t^5` below one half, `1 - (2 - 2t)^5 / 2` from there on.
#[derive(Clone, Copy, Debug, PartialEq, Eq, Structural)]
pub struct EaseInOutQuint;

/// The identity: progress equals time.
#[derive(Clone, Copy, Debug, PartialEq, Eq, Structural)]
pub struct Linear;

} // verus!
