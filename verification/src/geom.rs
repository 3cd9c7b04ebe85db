//! Plain two-dimensional pixel vectors.
//!
//! All interaction state (pointer positions, pan translations, window
//! sizes) is carried in whole pixel units, so the camera arithmetic is
//! exact and every property of the drag state machine can be stated over
//! mathematical integers.

use vstd::prelude::*;

verus! {

/// A two-dimensional vector in whole pixel units.
///
/// `x` grows to the right; `y` grows upwards (render space, origin at the
/// bottom-left corner of the window).  Pointer events arrive in device
/// space (origin top-left, `y` down) and are flipped at ingestion.
#[derive(Clone, Copy, Debug, PartialEq, Eq, Structural)]
pub struct Vec2 {
    pub x: i64,
    pub y: i64,
}

impl Vec2 {
    /// The origin.
    pub open spec fn zero_spec() -> Vec2 {
        Vec2 { x: 0, y: 0 }
    }

    /// Builds the origin vector.
    pub fn zero() -> (v: Vec2)
        ensures
            v == Vec2::zero_spec(),
    {
        Vec2 { x: 0, y: 0 }
    }

    /// Builds a vector from its two components.
    pub fn new(x: i64, y: i64) -> (v: Vec2)
        ensures
            v.x == x,
            v.y == y,
    {
        Vec2 { x, y }
    }
}

} // verus!
