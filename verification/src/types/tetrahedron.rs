//! Marker glyphs: the small tetrahedron raised at every intersection point.

use vstd::prelude::*;

use crate::algebra::{lemma_mul_bound, v3_add, v3_scale, RatVec3, Vec3};
use crate::types::intersection::Intersection;
use crate::types::point::{rat_bounded, RatPoint, DEN_BOUND};
use crate::MAX_COORD;

verus! {

/// The rational point `p` shifted by the integer displacement `v`:
/// numerators move by `den * v`, the denominator is unchanged.
pub open spec fn rat_shift(p: RatVec3, v: Vec3) -> RatVec3 {
    RatVec3 { num: v3_add(p.num, v3_scale(p.den, v)), den: p.den }
}

/// The four vertices of the marker tetrahedron with apex point `p` and edge
/// length `e`: `p` offset along `+X`, `+Y`, `+Z`, and by the negative
/// diagonal `(-e, -e, -e)`.
pub open spec fn tetra_vertices(p: RatVec3, e: int) -> Seq<RatVec3> {
    seq![
        rat_shift(p, Vec3 { x: e, y: 0, z: 0 }),
        rat_shift(p, Vec3 { x: 0, y: e, z: 0 }),
        rat_shift(p, Vec3 { x: 0, y: 0, z: e }),
        rat_shift(p, Vec3 { x: -e, y: -e, z: -e }),
    ]
}

/// The marker glyph for one intersection: a small tetrahedron. Its four
/// faces are the four ways of choosing three of its four vertices; the face
/// list itself is laid down by the assembler.
#[derive(Clone, Copy, Debug)]
pub struct Tetrahedron {
    pub top: RatPoint,
    pub bottoms: [RatPoint; 3],
}

impl Tetrahedron {
    /// The four vertices in their fixed order: apex first.
    pub open spec fn vertices_view(self) -> Seq<RatVec3> {
        seq![self.top@, self.bottoms[0]@, self.bottoms[1]@, self.bottoms[2]@]
    }

    /// Every vertex is in the range the assembled mesh supports.
    pub open spec fn wf(self) -> bool {
        forall|v: int| 0 <= v < 4 ==> rat_bounded(#[trigger] self.vertices_view()[v])
    }

    /// Synthesizes the marker for one intersection. This is the axis-aligned
    /// tetrahedron policy: it needs no normalization, so no input can make it
    /// degenerate, and it always yields exactly four vertices.
    pub fn from_intersection(i: &Intersection) -> (r: Tetrahedron)
        requires
            i.wf(),
        ensures
            r.vertices_view() == tetra_vertices(i@.points, i@.edge_length),
            r.wf(),
    {
        let p = i.points;
        let e: i128 = i.edge_length as i128;
        proof {
            lemma_mul_bound(p.den as int, e as int, DEN_BOUND as int, MAX_COORD as int);
        }
        let shift = p.den * e;
        let r = Tetrahedron {
            top: RatPoint { x: p.x + shift, y: p.y, z: p.z, den: p.den },
            bottoms: [
                RatPoint { x: p.x, y: p.y + shift, z: p.z, den: p.den },
                RatPoint { x: p.x, y: p.y, z: p.z + shift, den: p.den },
                RatPoint { x: p.x - shift, y: p.y - shift, z: p.z - shift, den: p.den },
            ],
        };
        proof {
            broadcast use vstd::arithmetic::mul::group_mul_is_commutative_and_distributive;

            assert(r.vertices_view() =~= tetra_vertices(i@.points, i@.edge_length));
        }
        r
    }
}

} // verus!
