//! Fixed-point points and the surfaces of a scene.
use vstd::prelude::*;

verus! {

/// The fixed-point value of one: every real quantity of a scene is an
/// integer count of `1 / UNIT` (`UNIT` is `10 * 2^48`).
pub const UNIT: i64 = 2814749767106560;

/// A point of space, each coordinate in units of `1 / UNIT`.
#[derive(Clone, Copy, Debug, PartialEq, Eq, Structural)]
pub struct Point3 {
    pub x: i64,
    pub y: i64,
    pub z: i64,
}

/// Squared Euclidean distance between two points, in units of `1 / UNIT^2`.
pub open spec fn distance_squared(p: Point3, q: Point3) -> int {
    (p.x - q.x) * (p.x - q.x) + (p.y - q.y) * (p.y - q.y) + (p.z - q.z) * (p.z - q.z)
}

} // verus!
