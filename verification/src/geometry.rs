//! 2D world coordinates and the hover distance test.
//!
//! Positions are integer world coordinates. The hover rule compares the
//! Euclidean distance between the pointer and an entry against a threshold;
//! over the integers, `distance < t` holds exactly when `t >= 0` and the
//! squared distance is below `t * t`, so the comparison is made on squares
//! and no square root is ever taken.

use vstd::prelude::*;

verus! {

/// A 2D point or offset in world coordinates.
#[derive(Clone, Copy, Debug, PartialEq, Eq, Structural)]
pub struct Vec2 {
    pub x: i32,
    pub y: i32,
}

/// Squared Euclidean distance between two points.
pub open spec fn dist_sq(a: Vec2, b: Vec2) -> int {
    (a.x - b.x) * (a.x - b.x) + (a.y - b.y) * (a.y - b.y)
}

/// The hover test: the Euclidean distance from `p` to `q` is strictly below
/// `t`. Stated over squares, which is equivalent for every integer `t`
/// (a distance is never below a non-positive threshold).
pub open spec fn within_threshold(p: Vec2, q: Vec2, t: int) -> bool {
    0 <= t && dist_sq(p, q) < t * t
}

/// Computes the squared Euclidean distance between two points.
pub fn distance_squared(a: Vec2, b: Vec2) -> (r: i128)
    ensures
        r == dist_sq(a, b),
{
    let dx: i128 = (a.x as i128) - (b.x as i128);
    let dy: i128 = (a.y as i128) - (b.y as i128);
    proof {
        assert(0 <= dx * dx <= 0x1_0000_0000_0000_0000) by (nonlinear_arith)
            requires
                -0x1_0000_0000 <= dx <= 0x1_0000_0000,
        ;
        assert(0 <= dy * dy <= 0x1_0000_0000_0000_0000) by (nonlinear_arith)
            requires
                -0x1_0000_0000 <= dy <= 0x1_0000_0000,
        ;
    }
    dx * dx + dy * dy
}

/// Decides the hover test: is `p` strictly within distance `threshold` of `q`?
pub fn is_within(p: Vec2, q: Vec2, threshold: i32) -> (r: bool)
    ensures
        r == within_threshold(p, q, threshold as int),
{
    if threshold < 0 {
        return false;
    }
    let d = distance_squared(p, q);
    let t: i128 = threshold as i128;
    proof {
        assert(0 <= t * t <= 0x4000_0000_0000_0000) by (nonlinear_arith)
            requires
                0 <= t <= 0x8000_0000,
        ;
    }
    d < t * t
}

} // verus!
