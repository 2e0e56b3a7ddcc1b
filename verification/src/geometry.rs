//! Positions on the playfield and the hit test.

use vstd::prelude::*;

verus! {

/// A position on the playfield, in whole distance units.
#[derive(Clone, Copy, Debug, PartialEq, Eq, Structural)]
pub struct Point {
    pub x: i32,
    pub y: i32,
}

impl Point {
    /// The square of the Euclidean distance between two points.
    pub open spec fn distance_squared(self, other: Point) -> int {
        (self.x - other.x) * (self.x - other.x) + (self.y - other.y) * (self.y - other.y)
    }

    /// Whether this point lies strictly closer to `center` than `radius`.
    ///
    /// Both sides of the comparison are squared, which keeps the test exact:
    /// neither side is negative, so `d < r` holds exactly when
    /// `d * d < r * r`.
    pub open spec fn within(self, center: Point, radius: nat) -> bool {
        self.distance_squared(center) < radius * radius
    }

    pub fn new(x: i32, y: i32) -> (point: Point)
        ensures
            point.x == x,
            point.y == y,
    {
        Point { x, y }
    }

    /// Decides the hit test: `true` exactly when the Euclidean distance from
    /// this point to `center` is strictly less than `radius`.
    pub fn is_within(&self, center: Point, radius: u32) -> (hit: bool)
        ensures
            hit == self.within(center, radius as nat),
    {
        let dx: i64 = self.x as i64 - center.x as i64;
        let dy: i64 = self.y as i64 - center.y as i64;
        let reach: u64 = radius as u64;
        assert(dx * dx <= 0x1_0000_0000_0000_0000) by (nonlinear_arith)
            requires
                -0x1_0000_0000 <= dx <= 0x1_0000_0000,
        ;
        assert(dy * dy <= 0x1_0000_0000_0000_0000) by (nonlinear_arith)
            requires
                -0x1_0000_0000 <= dy <= 0x1_0000_0000,
        ;
        assert(0 <= dx * dx && 0 <= dy * dy) by (nonlinear_arith);
        assert(reach * reach <= 0x1_0000_0000_0000_0000) by (nonlinear_arith)
            requires
                0 <= reach <= 0x1_0000_0000,
        ;
        let span: i128 = (dx as i128) * (dx as i128) + (dy as i128) * (dy as i128);
        let limit: i128 = (reach as i128) * (reach as i128);
        span < limit
    }
}

/// The squared comparison is the distance test. Where `whole` is the whole
/// part of the Euclidean distance between `point` and `center`, the point
/// is within `radius` exactly when `whole` is less than `radius`: a radius
/// is a whole number, so the fraction of the distance decides nothing.
pub proof fn lemma_within_is_distance_test(point: Point, center: Point, radius: nat, whole: nat)
    requires
        whole * whole <= point.distance_squared(center) < (whole + 1) * (whole + 1),
    ensures
        point.within(center, radius) <==> whole < radius,
{
    if whole < radius {
        assert((whole + 1) * (whole + 1) <= radius * radius) by (nonlinear_arith)
            requires
                whole + 1 <= radius,
        ;
    } else {
        assert(radius * radius <= whole * whole) by (nonlinear_arith)
            requires
                radius <= whole,
        ;
    }
}

} // verus!
