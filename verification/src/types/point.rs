//! Points and displacement vectors in fixed-point coordinates, and the exact
//! rational points that intersections produce.

use vstd::prelude::*;

use crate::algebra::{v3_bounded, v3_cross, v3_dot, v3_sub, Vec3, RatVec3};
use crate::algebra::{lemma_mul_bound, lemma_dot_bound, lemma_cross_bound};
use crate::MAX_COORD;

verus! {

/// Magnitude bound on the components of the displacement of two in-range
/// points: `2 * MAX_COORD`.
pub const DIFF_BOUND: i128 = 200_000_000;

/// Magnitude bound on the components of a cross product of two displacements:
/// `2 * DIFF_BOUND * DIFF_BOUND`.
pub const CROSS_BOUND: i128 = 80_000_000_000_000_000;

/// Magnitude bound on a dot product of a displacement with such a cross
/// product: `3 * DIFF_BOUND * CROSS_BOUND`. This bounds the determinant of
/// the intersection system, and with it the denominator of a hit point.
pub const DEN_BOUND: i128 = 48_000_000_000_000_000_000_000_000;

/// Magnitude bound on the numerators of a hit point:
/// `MAX_COORD * DEN_BOUND + DEN_BOUND * DIFF_BOUND`.
pub const NUM_BOUND: i128 = 14_400_000_000_000_000_000_000_000_000_000_000;

/// Magnitude bound on the numerators of any vertex of the assembled mesh:
/// a marker vertex is a hit point shifted by at most `MAX_COORD * DEN_BOUND`,
/// so `NUM_BOUND + MAX_COORD * DEN_BOUND`.
pub const MARKER_NUM_BOUND: i128 = 19_200_000_000_000_000_000_000_000_000_000_000;

/// A point with fixed-point integer coordinates.
#[derive(Clone, Copy, Debug, PartialEq, Eq, Structural)]
pub struct Point3 {
    pub x: i64,
    pub y: i64,
    pub z: i64,
}

impl View for Point3 {
    type V = Vec3;

    open spec fn view(&self) -> Vec3 {
        Vec3 { x: self.x as int, y: self.y as int, z: self.z as int }
    }
}

impl Point3 {
    /// All coordinates are within the range the exact arithmetic supports.
    pub open spec fn wf(self) -> bool {
        v3_bounded(self@, MAX_COORD as int)
    }

    pub fn new(x: i64, y: i64, z: i64) -> (p: Point3)
        ensures
            p@ == (Vec3 { x: x as int, y: y as int, z: z as int }),
    {
        Point3 { x, y, z }
    }
}

/// A displacement vector, held in wide integers so that the exact
/// intersection arithmetic cannot overflow.
#[derive(Clone, Copy, Debug, PartialEq, Eq, Structural)]
pub struct Vector3 {
    pub x: i128,
    pub y: i128,
    pub z: i128,
}

impl View for Vector3 {
    type V = Vec3;

    open spec fn view(&self) -> Vec3 {
        Vec3 { x: self.x as int, y: self.y as int, z: self.z as int }
    }
}

impl Vector3 {
    /// The displacement `to - from` between two points.
    pub fn between(from: &Point3, to: &Point3) -> (r: Vector3)
        ensures
            r@ == v3_sub(to@, from@),
    {
        Vector3 {
            x: to.x as i128 - from.x as i128,
            y: to.y as i128 - from.y as i128,
            z: to.z as i128 - from.z as i128,
        }
    }

    /// The cross product `self x other`.
    pub fn cross(&self, other: &Vector3) -> (r: Vector3)
        requires
            v3_bounded(self@, DIFF_BOUND as int),
            v3_bounded(other@, DIFF_BOUND as int),
        ensures
            r@ == v3_cross(self@, other@),
            v3_bounded(r@, CROSS_BOUND as int),
    {
        proof {
            lemma_cross_bound(self@, other@, DIFF_BOUND as int, DIFF_BOUND as int);
            lemma_mul_bound(self.y as int, other.z as int, DIFF_BOUND as int, DIFF_BOUND as int);
            lemma_mul_bound(self.z as int, other.y as int, DIFF_BOUND as int, DIFF_BOUND as int);
            lemma_mul_bound(self.z as int, other.x as int, DIFF_BOUND as int, DIFF_BOUND as int);
            lemma_mul_bound(self.x as int, other.z as int, DIFF_BOUND as int, DIFF_BOUND as int);
            lemma_mul_bound(self.x as int, other.y as int, DIFF_BOUND as int, DIFF_BOUND as int);
            lemma_mul_bound(self.y as int, other.x as int, DIFF_BOUND as int, DIFF_BOUND as int);
        }
        Vector3 {
            x: self.y * other.z - self.z * other.y,
            y: self.z * other.x - self.x * other.z,
            z: self.x * other.y - self.y * other.x,
        }
    }

    /// The dot product of a displacement with a cross product.
    pub fn dot(&self, other: &Vector3) -> (r: i128)
        requires
            v3_bounded(self@, DIFF_BOUND as int),
            v3_bounded(other@, CROSS_BOUND as int),
        ensures
            r == v3_dot(self@, other@),
            -DEN_BOUND <= r <= DEN_BOUND,
    {
        proof {
            lemma_dot_bound(self@, other@, DIFF_BOUND as int, CROSS_BOUND as int);
            lemma_mul_bound(self.x as int, other.x as int, DIFF_BOUND as int, CROSS_BOUND as int);
            lemma_mul_bound(self.y as int, other.y as int, DIFF_BOUND as int, CROSS_BOUND as int);
            lemma_mul_bound(self.z as int, other.z as int, DIFF_BOUND as int, CROSS_BOUND as int);
        }
        self.x * other.x + self.y * other.y + self.z * other.z
    }
}

/// The rational point is in the range any vertex of the assembled mesh may
/// occupy: positive denominator up to `DEN_BOUND`, numerators up to
/// `MARKER_NUM_BOUND` in magnitude.
pub open spec fn rat_bounded(p: RatVec3) -> bool {
    &&& 1 <= p.den <= DEN_BOUND as int
    &&& v3_bounded(p.num, MARKER_NUM_BOUND as int)
}

/// An exact rational point: the coordinates are `x / den`, `y / den` and
/// `z / den`, with `den >= 1`.
#[derive(Clone, Copy, Debug, PartialEq, Eq, Structural)]
pub struct RatPoint {
    pub x: i128,
    pub y: i128,
    pub z: i128,
    pub den: i128,
}

impl View for RatPoint {
    type V = RatVec3;

    open spec fn view(&self) -> RatVec3 {
        RatVec3 {
            num: Vec3 { x: self.x as int, y: self.y as int, z: self.z as int },
            den: self.den as int,
        }
    }
}

impl RatPoint {
    /// A positive denominator within the bound that a hit-point denominator
    /// can reach, and numerators within the bound the marker arithmetic needs.
    pub open spec fn wf(self) -> bool {
        &&& 1 <= self@.den <= DEN_BOUND as int
        &&& v3_bounded(self@.num, NUM_BOUND as int)
    }

    /// The rational point with value equal to the fixed-point point `p`.
    pub fn from_point(p: &Point3) -> (r: RatPoint)
        ensures
            r@ == (RatVec3 { num: p@, den: 1 }),
            p.wf() ==> r.wf(),
    {
        RatPoint { x: p.x as i128, y: p.y as i128, z: p.z as i128, den: 1 }
    }
}

} // verus!
