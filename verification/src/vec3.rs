//! Exact three-component vector arithmetic over scaled `i64` coordinates.
//!
//! Two scales are used throughout the crate:
//! - direction vectors (camera basis) store unit vectors multiplied by
//!   [`DIR_SCALE`], so a unit vector has squared length `DIR_SCALE * DIR_SCALE`;
//! - positions store world coordinates multiplied by [`POS_SCALE`].
//!
//! With `POS_SCALE == 100 * DIR_SCALE`, one movement step of `0.05` world
//! units along a direction vector `d` is exactly `d` scaled by `5` in
//! position units, so camera movement needs no division and stays exact.

use vstd::prelude::*;

verus! {

/// Direction vectors are unit vectors multiplied by this scale.
pub const DIR_SCALE: i64 = 1_000_000;

/// Positions are world coordinates multiplied by this scale.
pub const POS_SCALE: i64 = 100_000_000;

/// Bound on the coordinates of a well-formed direction vector. A unit vector
/// scaled by `DIR_SCALE` stays well below this, so the bound leaves room for
/// rounding in values supplied by the rendering host.
pub const DIR_LIMIT: i64 = 2_000_000;

/// Bound on the coordinates of a well-formed position (ten thousand world
/// units), chosen so that a dot product of a position with a direction
/// vector fits in an `i64`.
pub const POS_LIMIT: i64 = 1_000_000_000_000;

/// A three-component vector with `i64` coordinates under one of the two
/// fixed scales above.
#[derive(Clone, Copy, PartialEq, Eq, Structural, Debug)]
pub struct Vec3 {
    pub x: i64,
    pub y: i64,
    pub z: i64,
}

/// Mathematical dot product of two vectors, over unbounded integers.
pub open spec fn dot3(a: Vec3, b: Vec3) -> int {
    a.x * b.x + a.y * b.y + a.z * b.z
}

/// All coordinates lie within `limit` in absolute value.
pub open spec fn in_range(v: Vec3, limit: int) -> bool {
    &&& -limit <= v.x <= limit
    &&& -limit <= v.y <= limit
    &&& -limit <= v.z <= limit
}

impl Vec3 {
    pub fn new(x: i64, y: i64, z: i64) -> (r: Vec3)
        ensures
            r.x == x,
            r.y == y,
            r.z == z,
    {
        Vec3 { x, y, z }
    }

    /// Component-wise sum.
    pub fn plus(self, o: Vec3) -> (r: Vec3)
        requires
            i64::MIN <= self.x + o.x <= i64::MAX,
            i64::MIN <= self.y + o.y <= i64::MAX,
            i64::MIN <= self.z + o.z <= i64::MAX,
        ensures
            r.x == self.x + o.x,
            r.y == self.y + o.y,
            r.z == self.z + o.z,
    {
        Vec3 { x: self.x + o.x, y: self.y + o.y, z: self.z + o.z }
    }

    /// Component-wise difference.
    pub fn minus(self, o: Vec3) -> (r: Vec3)
        requires
            i64::MIN <= self.x - o.x <= i64::MAX,
            i64::MIN <= self.y - o.y <= i64::MAX,
            i64::MIN <= self.z - o.z <= i64::MAX,
        ensures
            r.x == self.x - o.x,
            r.y == self.y - o.y,
            r.z == self.z - o.z,
    {
        Vec3 { x: self.x - o.x, y: self.y - o.y, z: self.z - o.z }
    }

    /// Multiplication by an integer scalar.
    pub fn scale(self, k: i64) -> (r: Vec3)
        requires
            i64::MIN <= self.x * k <= i64::MAX,
            i64::MIN <= self.y * k <= i64::MAX,
            i64::MIN <= self.z * k <= i64::MAX,
        ensures
            r.x == self.x * k,
            r.y == self.y * k,
            r.z == self.z * k,
    {
        Vec3 { x: self.x * k, y: self.y * k, z: self.z * k }
    }

    /// Dot product; the result equals [`dot3`] of the arguments.
    pub fn dot(self, o: Vec3) -> (r: i64)
        requires
            i64::MIN <= self.x * o.x <= i64::MAX,
            i64::MIN <= self.y * o.y <= i64::MAX,
            i64::MIN <= self.z * o.z <= i64::MAX,
            i64::MIN <= self.x * o.x + self.y * o.y <= i64::MAX,
            i64::MIN <= dot3(self, o) <= i64::MAX,
        ensures
            r == dot3(self, o),
    {
        self.x * o.x + self.y * o.y + self.z * o.z
    }
}

/// Every coordinate of a product of two vectors bounded by `a` and `b`
/// is bounded by `a * b`.
pub proof fn lemma_mul_bound(x: int, y: int, a: int, b: int)
    by (nonlinear_arith)
    requires
        0 <= a,
        0 <= b,
        -a <= x <= a,
        -b <= y <= b,
    ensures
        -(a * b) <= x * y <= a * b,
{
}

} // verus!
