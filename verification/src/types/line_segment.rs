//! Directed line segments in fixed-point coordinates.

use vstd::prelude::*;

use crate::algebra::Vec3;
use crate::types::point::Point3;

verus! {

/// The mathematical value of a segment: its two endpoints.
pub struct SegView {
    pub start: Vec3,
    pub end: Vec3,
}

/// A directed line segment from `start` to `end`. The two points may
/// coincide; such a degenerate segment intersects nothing.
#[derive(Clone, Copy, Debug, PartialEq, Eq, Structural)]
pub struct LineSegment {
    pub start: Point3,
    pub end: Point3,
}

impl View for LineSegment {
    type V = SegView;

    open spec fn view(&self) -> SegView {
        SegView { start: self.start@, end: self.end@ }
    }
}

impl LineSegment {
    /// Both endpoints are within the coordinate range.
    pub open spec fn wf(self) -> bool {
        self.start.wf() && self.end.wf()
    }

    pub fn new(start: Point3, end: Point3) -> (s: LineSegment)
        ensures
            s@ == (SegView { start: start@, end: end@ }),
    {
        LineSegment { start, end }
    }
}

} // verus!
