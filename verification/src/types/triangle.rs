//! Triangles and the exact Möller–Trumbore segment/triangle intersection
//! test, together with the geometric laws that hold of it.

use vstd::prelude::*;

use crate::algebra::{
    lemma_cramer, lemma_cross_orthogonal, lemma_dot_comm, lemma_dot_scale_add, lemma_mul_bound,
    lemma_scale_add, lemma_scale_neg, lemma_scale_sub, lemma_triple_swap, v3_add, v3_cross,
    v3_dot, v3_neg, v3_scale, v3_sub, RatVec3, Vec3,
};
use crate::types::line_segment::{LineSegment, SegView};
use crate::types::point::{Point3, RatPoint, Vector3, DEN_BOUND, DIFF_BOUND};
use crate::MAX_COORD;

verus! {

/// The mathematical value of a triangle: its three vertices, in order.
pub struct TriView {
    pub v1: Vec3,
    pub v2: Vec3,
    pub v3: Vec3,
}

/// A triangle with vertex order preserved: the face normal follows from the
/// right-hand rule on the edges `v1 -> v2` and `v1 -> v3`. A degenerate
/// (zero-area) triangle is a legal value; the intersection test reports no
/// intersection for it.
#[derive(Clone, Copy, Debug)]
pub struct Triangle {
    pub vertices: [Point3; 3],
}

impl View for Triangle {
    type V = TriView;

    open spec fn view(&self) -> TriView {
        TriView { v1: self.vertices[0]@, v2: self.vertices[1]@, v3: self.vertices[2]@ }
    }
}

/// The segment's direction: `end - start`.
pub open spec fn seg_dir(s: SegView) -> Vec3 {
    v3_sub(s.end, s.start)
}

/// The triangle's first edge: `v2 - v1`.
pub open spec fn tri_edge1(t: TriView) -> Vec3 {
    v3_sub(t.v2, t.v1)
}

/// The triangle's second edge: `v3 - v1`.
pub open spec fn tri_edge2(t: TriView) -> Vec3 {
    v3_sub(t.v3, t.v1)
}

/// The triangle's (unnormalized) normal: `edge1 x edge2`.
pub open spec fn tri_normal(t: TriView) -> Vec3 {
    v3_cross(tri_edge1(t), tri_edge2(t))
}

/// The segment start relative to the triangle's first vertex.
pub open spec fn mt_start_off(t: TriView, s: SegView) -> Vec3 {
    v3_sub(s.start, t.v1)
}

/// The determinant of the intersection system, `edge1 . (dir x edge2)`.
/// It is zero exactly when the segment is parallel to the triangle's plane
/// (or the triangle or segment is degenerate).
pub open spec fn mt_det(t: TriView, s: SegView) -> int {
    v3_dot(tri_edge1(t), v3_cross(seg_dir(s), tri_edge2(t)))
}

/// Numerator of the first barycentric coordinate `u = u_num / det`.
pub open spec fn mt_u_num(t: TriView, s: SegView) -> int {
    v3_dot(mt_start_off(t, s), v3_cross(seg_dir(s), tri_edge2(t)))
}

/// Numerator of the second barycentric coordinate `v = v_num / det`.
pub open spec fn mt_v_num(t: TriView, s: SegView) -> int {
    v3_dot(seg_dir(s), v3_cross(mt_start_off(t, s), tri_edge1(t)))
}

/// Numerator of the ray parameter `t = t_num / det` along the direction.
pub open spec fn mt_t_num(t: TriView, s: SegView) -> int {
    v3_dot(tri_edge2(t), v3_cross(mt_start_off(t, s), tri_edge1(t)))
}

/// The magnitude of the determinant.
pub open spec fn mt_abs_det(t: TriView, s: SegView) -> int {
    if mt_det(t, s) >= 0 {
        mt_det(t, s)
    } else {
        -mt_det(t, s)
    }
}

/// The first barycentric coordinate scaled by `mt_abs_det`: the true
/// coordinate is `mt_bary_u / mt_abs_det`.
pub open spec fn mt_bary_u(t: TriView, s: SegView) -> int {
    if mt_det(t, s) >= 0 {
        mt_u_num(t, s)
    } else {
        -mt_u_num(t, s)
    }
}

/// The second barycentric coordinate scaled by `mt_abs_det`.
pub open spec fn mt_bary_v(t: TriView, s: SegView) -> int {
    if mt_det(t, s) >= 0 {
        mt_v_num(t, s)
    } else {
        -mt_v_num(t, s)
    }
}

/// The ray parameter scaled by `mt_abs_det`.
pub open spec fn mt_bary_t(t: TriView, s: SegView) -> int {
    if mt_det(t, s) >= 0 {
        mt_t_num(t, s)
    } else {
        -mt_t_num(t, s)
    }
}

/// Whether the segment's forward ray hits the triangle: the segment is not
/// parallel to the plane, the crossing lies within the triangle's edges
/// (`0 <= u`, `0 <= v`, `u + v <= 1` in scaled form), and strictly forward of
/// `start` (`0 < t`). As in the classic formulation of the algorithm there is
/// no upper bound on `t`: a crossing beyond `end` still counts.
pub open spec fn mt_hits(t: TriView, s: SegView) -> bool {
    &&& mt_det(t, s) != 0
    &&& 0 <= mt_bary_u(t, s) <= mt_abs_det(t, s)
    &&& 0 <= mt_bary_v(t, s)
    &&& mt_bary_u(t, s) + mt_bary_v(t, s) <= mt_abs_det(t, s)
    &&& 0 < mt_bary_t(t, s)
}

/// The exact hit point, `start + (t_num / det) * dir`, as a rational point
/// with positive denominator `|det|`. Meaningful only when `mt_hits`.
pub open spec fn mt_hit_point(t: TriView, s: SegView) -> RatVec3 {
    let raw = v3_add(v3_scale(mt_det(t, s), s.start), v3_scale(mt_t_num(t, s), seg_dir(s)));
    if mt_det(t, s) >= 0 {
        RatVec3 { num: raw, den: mt_det(t, s) }
    } else {
        RatVec3 { num: v3_neg(raw), den: -mt_det(t, s) }
    }
}

impl Triangle {
    /// All three vertices are within the coordinate range.
    pub open spec fn wf(self) -> bool {
        &&& self.vertices[0].wf()
        &&& self.vertices[1].wf()
        &&& self.vertices[2].wf()
    }

    pub fn new(v1: Point3, v2: Point3, v3: Point3) -> (t: Triangle)
        ensures
            t@ == (TriView { v1: v1@, v2: v2@, v3: v3@ }),
            v1.wf() && v2.wf() && v3.wf() ==> t.wf(),
    {
        Triangle { vertices: [v1, v2, v3] }
    }

    /// The Möller–Trumbore intersection test, in exact integer arithmetic.
    ///
    /// Returns the exact rational hit point where the forward ray from
    /// `line.start` through `line.end` pierces the triangle, and `None` when
    /// it misses, is parallel to the triangle's plane, or the triangle or the
    /// segment is degenerate. Crossings strictly behind `start` do not count;
    /// crossings beyond `end` do (no upper bound on the ray parameter).
    pub fn intersection_with_line(&self, line: &LineSegment) -> (r: Option<RatPoint>)
        requires
            self.wf(),
            line.wf(),
        ensures
            r is Some <==> mt_hits(self@, line@),
            r matches Some(p) ==> p@ == mt_hit_point(self@, line@) && p.wf(),
    {
        let v1 = self.vertices[0];
        let v2 = self.vertices[1];
        let v3 = self.vertices[2];
        let dir = Vector3::between(&line.start, &line.end);
        let edge1 = Vector3::between(&v1, &v2);
        let edge2 = Vector3::between(&v1, &v3);
        let h = dir.cross(&edge2);
        let a = edge1.dot(&h);
        if a == 0 {
            // The segment is parallel to the triangle's plane (or one of the
            // two is degenerate).
            return None;
        }
        let s_off = Vector3::between(&v1, &line.start);
        let u_num = s_off.dot(&h);
        let u_ok: bool = if a > 0 {
            0 <= u_num && u_num <= a
        } else {
            a <= u_num && u_num <= 0
        };
        if !u_ok {
            return None;
        }
        let q = s_off.cross(&edge1);
        let v_num = dir.dot(&q);
        let v_ok: bool = if a > 0 {
            0 <= v_num && u_num + v_num <= a
        } else {
            v_num <= 0 && a <= u_num + v_num
        };
        if !v_ok {
            return None;
        }
        let t_num = edge2.dot(&q);
        let t_ok: bool = if a > 0 {
            t_num > 0
        } else {
            t_num < 0
        };
        if !t_ok {
            return None;
        }
        proof {
            lemma_mul_bound(line.start.x as int, a as int, MAX_COORD as int, DEN_BOUND as int);
            lemma_mul_bound(line.start.y as int, a as int, MAX_COORD as int, DEN_BOUND as int);
            lemma_mul_bound(line.start.z as int, a as int, MAX_COORD as int, DEN_BOUND as int);
            lemma_mul_bound(t_num as int, dir.x as int, DEN_BOUND as int, DIFF_BOUND as int);
            lemma_mul_bound(t_num as int, dir.y as int, DEN_BOUND as int, DIFF_BOUND as int);
            lemma_mul_bound(t_num as int, dir.z as int, DEN_BOUND as int, DIFF_BOUND as int);
        }
        let nx = line.start.x as i128 * a + t_num * dir.x;
        let ny = line.start.y as i128 * a + t_num * dir.y;
        let nz = line.start.z as i128 * a + t_num * dir.z;
        if a > 0 {
            Some(RatPoint { x: nx, y: ny, z: nz, den: a })
        } else {
            Some(RatPoint { x: -nx, y: -ny, z: -nz, den: -a })
        }
    }
}

/// A hit point lies exactly in the plane of the triangle and within its
/// edges: writing `p` for the hit point and `den` for its denominator,
/// `p - v1` equals `(bary_u * edge1 + bary_v * edge2) / den` with
/// `bary_u, bary_v >= 0` and `bary_u + bary_v <= den`, and the normal is
/// orthogonal to `p - v1`.
pub proof fn lemma_hit_point_in_triangle(t: TriView, s: SegView)
    requires
        mt_hits(t, s),
    ensures
        mt_hit_point(t, s).den == mt_abs_det(t, s),
        1 <= mt_hit_point(t, s).den,
        v3_sub(mt_hit_point(t, s).num, v3_scale(mt_hit_point(t, s).den, t.v1)) == v3_add(
            v3_scale(mt_bary_u(t, s), tri_edge1(t)),
            v3_scale(mt_bary_v(t, s), tri_edge2(t)),
        ),
        0 <= mt_bary_u(t, s),
        0 <= mt_bary_v(t, s),
        mt_bary_u(t, s) + mt_bary_v(t, s) <= mt_hit_point(t, s).den,
        v3_dot(
            tri_normal(t),
            v3_sub(mt_hit_point(t, s).num, v3_scale(mt_hit_point(t, s).den, t.v1)),
        ) == 0,
{
    let d = seg_dir(s);
    let e1 = tri_edge1(t);
    let e2 = tri_edge2(t);
    let off = mt_start_off(t, s);
    let det: int = mt_det(t, s);
    let u: int = mt_u_num(t, s);
    let v: int = mt_v_num(t, s);
    let tn: int = mt_t_num(t, s);
    // det*off + tn*d == u*e1 + v*e2.
    lemma_cramer(d, e1, e2, off);
    // det*start - det*v1 == det*(start - v1).
    lemma_scale_sub(det, s.start, t.v1);
    if det < 0 {
        lemma_scale_neg(det, t.v1);
        lemma_scale_neg(u, e1);
        lemma_scale_neg(v, e2);
    }
    assert(v3_sub(mt_hit_point(t, s).num, v3_scale(mt_hit_point(t, s).den, t.v1)) == v3_add(
        v3_scale(mt_bary_u(t, s), e1),
        v3_scale(mt_bary_v(t, s), e2),
    ));
    // The normal is orthogonal to both edges, hence to the combination.
    lemma_dot_scale_add(tri_normal(t), mt_bary_u(t, s), e1, mt_bary_v(t, s), e2);
    lemma_cross_orthogonal(e1, e2);
    lemma_dot_comm(tri_normal(t), e1);
    lemma_dot_comm(tri_normal(t), e2);
}

/// A segment parallel to the triangle's plane (its direction orthogonal to
/// the triangle's normal) yields no hit.
pub proof fn lemma_parallel_misses(t: TriView, s: SegView)
    requires
        v3_dot(seg_dir(s), tri_normal(t)) == 0,
    ensures
        !mt_hits(t, s),
{
    lemma_triple_swap(seg_dir(s), tri_edge1(t), tri_edge2(t));
}

/// A segment whose line crosses the triangle's plane outside the triangle's
/// edges yields no hit.
pub proof fn lemma_outside_misses(t: TriView, s: SegView)
    requires
        mt_det(t, s) != 0,
        mt_bary_u(t, s) < 0 || mt_bary_u(t, s) > mt_abs_det(t, s) || mt_bary_v(t, s) < 0 || mt_bary_u(
            t,
            s,
        ) + mt_bary_v(t, s) > mt_abs_det(t, s),
    ensures
        !mt_hits(t, s),
{
}

/// The triangle translated by `d`.
pub open spec fn tri_translate(t: TriView, d: Vec3) -> TriView {
    TriView { v1: v3_add(t.v1, d), v2: v3_add(t.v2, d), v3: v3_add(t.v3, d) }
}

/// The segment translated by `d`.
pub open spec fn seg_translate(s: SegView, d: Vec3) -> SegView {
    SegView { start: v3_add(s.start, d), end: v3_add(s.end, d) }
}

/// Translating the triangle and the segment by one displacement leaves the
/// hit verdict unchanged and moves the hit point by exactly that
/// displacement (scaled by the unchanged denominator).
pub proof fn lemma_translation_invariant(t: TriView, s: SegView, d: Vec3)
    ensures
        mt_hits(tri_translate(t, d), seg_translate(s, d)) == mt_hits(t, s),
        mt_hits(t, s) ==> mt_hit_point(tri_translate(t, d), seg_translate(s, d)) == (RatVec3 {
            num: v3_add(mt_hit_point(t, s).num, v3_scale(mt_hit_point(t, s).den, d)),
            den: mt_hit_point(t, s).den,
        }),
{
    let t2 = tri_translate(t, d);
    let s2 = seg_translate(s, d);
    assert(seg_dir(s2) == seg_dir(s));
    assert(tri_edge1(t2) == tri_edge1(t));
    assert(tri_edge2(t2) == tri_edge2(t));
    assert(mt_start_off(t2, s2) == mt_start_off(t, s));
    if mt_hits(t, s) {
        let det: int = mt_det(t, s);
        lemma_scale_add(det, s.start, d);
        if det < 0 {
            lemma_scale_neg(det, d);
        }
    }
}

} // verus!
