//! Intersection records: the exact hit points a scan collects.

use vstd::prelude::*;

use crate::algebra::RatVec3;
use crate::types::point::RatPoint;
use crate::MAX_COORD;

verus! {

/// The mathematical value of one intersection record.
pub struct IntersectionView {
    pub points: RatVec3,
    pub edge_length: int,
}

/// One intersection found by the scan: the exact hit point, and the edge
/// length of the marker tetrahedron to synthesize at it.
#[derive(Clone, Copy, Debug)]
pub struct Intersection {
    pub points: RatPoint,
    pub edge_length: i64,
}

impl View for Intersection {
    type V = IntersectionView;

    open spec fn view(&self) -> IntersectionView {
        IntersectionView { points: self.points@, edge_length: self.edge_length as int }
    }
}

impl Intersection {
    /// The hit point is in range and the marker edge is a sensible length.
    pub open spec fn wf(self) -> bool {
        &&& self.points.wf()
        &&& 0 <= self.edge_length <= MAX_COORD
    }

    pub fn new(points: RatPoint, edge_length: i64) -> (r: Intersection)
        ensures
            r == (Intersection { points, edge_length }),
    {
        Intersection { points, edge_length }
    }
}

/// All intersections found by one scan, in mesh face order.
#[derive(Debug)]
pub struct Intersections {
    pub intersections: Vec<Intersection>,
}

impl View for Intersections {
    type V = Seq<IntersectionView>;

    open spec fn view(&self) -> Seq<IntersectionView> {
        self.intersections@.map_values(|i: Intersection| i@)
    }
}

impl Intersections {
    /// Every record is well formed.
    pub open spec fn wf(self) -> bool {
        forall|j: int|
            0 <= j < self.intersections@.len() ==> (#[trigger] self.intersections@[j]).wf()
    }
}

} // verus!
