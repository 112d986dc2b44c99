//! Exact segment/mesh intersection with marker synthesis.
//!
//! The library computes where a directed line segment pierces the surface of
//! a triangulated mesh and builds an annotated copy of the mesh with a small
//! tetrahedron marker at every intersection point.
//!
//! All coordinates are fixed-point: an `i64` counts `1/SCALE` model units.
//! The intersection arithmetic is exact (no rounding), so intersection points
//! are exact rational points with a common denominator (`RatPoint`).

use vstd::prelude::*;

pub mod algebra;
pub mod types;

use crate::algebra::RatVec3;
use crate::types::intersection::{Intersection, IntersectionView, Intersections};
use crate::types::line_segment::{LineSegment, SegView};
use crate::types::mesh::{mesh_tri, ColoredMesh, ColoredVertex, Face, Mesh, MeshView};
use crate::types::point::{rat_bounded, RatPoint};
use crate::types::tetrahedron::{tetra_vertices, Tetrahedron};
use crate::types::triangle::{mt_hit_point, mt_hits, Triangle};
use vstd::arithmetic::div_mod::lemma_fundamental_div_mod;

verus! {

/// Number of fixed-point units in one model unit: a coordinate stored as an
/// `i64` value `c` stands for the real coordinate `c / SCALE`.
pub const SCALE: i64 = 1_000_000;

/// Largest magnitude of any input coordinate (mesh vertices and segment
/// endpoints), chosen so that every intermediate value of the exact
/// intersection arithmetic fits in `i128`.
pub const MAX_COORD: i64 = 100_000_000;

/// Edge length of a marker tetrahedron: half a model unit.
pub const MARKER_EDGE_LENGTH: i64 = 500_000;

/// Resolves each face's three vertex indices against the vertex list, in
/// face order.
pub fn generate_triangles(mesh: &Mesh) -> (r: Vec<Triangle>)
    requires
        mesh.wf(),
    ensures
        r@.len() == mesh.face_count(),
        forall|k: int|
            0 <= k < r@.len() ==> (#[trigger] r@[k])@ == mesh_tri(mesh@, k) && r@[k].wf(),
{
    let len0 = mesh.indices.len();
    let n = len0 / 3;
    proof {
        lemma_fundamental_div_mod(mesh.indices@.len() as int, 3);
    }
    let mut out: Vec<Triangle> = Vec::new();
    let mut k: usize = 0;
    while k < n
        invariant
            mesh.wf(),
            len0 == mesh@.indices.len(),
            n == mesh@.indices.len() / 3,
            3 * n == mesh@.indices.len(),
            k <= n,
            out@.len() == k,
            forall|j: int|
                0 <= j < k ==> (#[trigger] out@[j])@ == mesh_tri(mesh@, j) && out@[j].wf(),
        decreases n - k,
    {
        let i0 = mesh.indices[3 * k];
        let i1 = mesh.indices[3 * k + 1];
        let i2 = mesh.indices[3 * k + 2];
        proof {
            assert(mesh@.indices[3 * k as int] == i0 as int);
            assert(mesh@.indices[3 * k as int + 1] == i1 as int);
            assert(mesh@.indices[3 * k as int + 2] == i2 as int);
        }
        let t = Triangle::new(mesh.vertices[i0], mesh.vertices[i1], mesh.vertices[i2]);
        proof {
            assert(mesh@.vertices[i0 as int] == mesh.vertices@[i0 as int]@);
            assert(mesh@.vertices[i1 as int] == mesh.vertices@[i1 as int]@);
            assert(mesh@.vertices[i2 as int] == mesh.vertices@[i2 as int]@);
            assert(t@ == mesh_tri(mesh@, k as int));
        }
        out.push(t);
        k += 1;
    }
    out
}

/// The intersection records the scan produces for the first `k` faces of the
/// mesh, in face order: one record per face the segment hits, holding the
/// exact hit point and the marker edge length.
pub open spec fn scan_spec(m: MeshView, s: SegView, k: int) -> Seq<IntersectionView>
    decreases k,
{
    if k <= 0 {
        Seq::empty()
    } else if mt_hits(mesh_tri(m, k - 1), s) {
        scan_spec(m, s, k - 1).push(
            IntersectionView {
                points: mt_hit_point(mesh_tri(m, k - 1), s),
                edge_length: MARKER_EDGE_LENGTH as int,
            },
        )
    } else {
        scan_spec(m, s, k - 1)
    }
}

/// The number of faces among the first `k` that the segment hits.
pub open spec fn hit_count(m: MeshView, s: SegView, k: int) -> int
    decreases k,
{
    if k <= 0 {
        0
    } else if mt_hits(mesh_tri(m, k - 1), s) {
        hit_count(m, s, k - 1) + 1
    } else {
        hit_count(m, s, k - 1)
    }
}

/// The scan yields exactly one record per hit face: over any prefix of the
/// faces its length equals the number of hit faces, whatever the mesh and
/// the segment.
pub proof fn lemma_scan_len(m: MeshView, s: SegView, k: int)
    ensures
        scan_spec(m, s, k).len() == hit_count(m, s, k),
    decreases k,
{
    if k > 0 {
        lemma_scan_len(m, s, k - 1);
    }
}

/// Scans every face of the mesh in face order and collects one intersection
/// record per face the segment's forward ray hits. No deduplication and no
/// nearest-hit selection: every hit face contributes, in face order.
pub fn found_intersections(line: &LineSegment, model: &Mesh) -> (r: Intersections)
    requires
        line.wf(),
        model.wf(),
    ensures
        r@ == scan_spec(model@, line@, model.face_count()),
        r.wf(),
{
    let triangles = generate_triangles(model);
    let mut intersections: Vec<Intersection> = Vec::new();
    let mut k: usize = 0;
    while k < triangles.len()
        invariant
            line.wf(),
            model.wf(),
            triangles@.len() == model.face_count(),
            forall|j: int|
                0 <= j < triangles@.len() ==> (#[trigger] triangles@[j])@ == mesh_tri(model@, j)
                    && triangles@[j].wf(),
            k <= triangles@.len(),
            intersections@.map_values(|i: Intersection| i@) == scan_spec(model@, line@, k as int),
            forall|j: int| 0 <= j < intersections@.len() ==> (#[trigger] intersections@[j]).wf(),
        decreases triangles@.len() - k,
    {
        if let Some(point) = triangles[k].intersection_with_line(line) {
            intersections.push(Intersection::new(point, MARKER_EDGE_LENGTH));
        }
        proof {
            assert(intersections@.map_values(|i: Intersection| i@) =~= scan_spec(
                model@,
                line@,
                k as int + 1,
            ));
        }
        k += 1;
    }
    Intersections { intersections }
}

/// Synthesizes the marker glyph for every intersection, in order. The
/// axis-aligned tetrahedron policy needs no normalization, so synthesis
/// cannot fail and nothing is skipped.
pub fn synthesize_markers(found: &Intersections) -> (r: Vec<Tetrahedron>)
    requires
        found.wf(),
    ensures
        r@.len() == found.intersections@.len(),
        forall|j: int|
            0 <= j < r@.len() ==> (#[trigger] r@[j]).vertices_view() == tetra_vertices(
                found.intersections@[j]@.points,
                found.intersections@[j]@.edge_length,
            ) && r@[j].wf(),
{
    let mut out: Vec<Tetrahedron> = Vec::new();
    let mut k: usize = 0;
    while k < found.intersections.len()
        invariant
            found.wf(),
            k <= found.intersections@.len(),
            out@.len() == k,
            forall|j: int|
                0 <= j < k ==> (#[trigger] out@[j]).vertices_view() == tetra_vertices(
                    found.intersections@[j]@.points,
                    found.intersections@[j]@.edge_length,
                ) && out@[j].wf(),
        decreases found.intersections@.len() - k,
    {
        let t = Tetrahedron::from_intersection(&found.intersections[k]);
        out.push(t);
        k += 1;
    }
    out
}

/// The face at position `f` holds exactly the vertex indices `a`, `b`, `c`.
pub open spec fn face_is(faces: Seq<Face>, f: int, a: int, b: int, c: int) -> bool {
    &&& faces[f].a == a
    &&& faces[f].b == b
    &&& faces[f].c == c
}

/// The four faces of one marker, starting at face position `f`, over the
/// four marker vertices starting at vertex index `n`: the four ways of
/// choosing three of the four vertices.
pub open spec fn marker_faces_at(faces: Seq<Face>, f: int, n: int) -> bool {
    &&& face_is(faces, f, n, n + 1, n + 2)
    &&& face_is(faces, f + 1, n, n + 1, n + 3)
    &&& face_is(faces, f + 2, n + 1, n + 2, n + 3)
    &&& face_is(faces, f + 3, n, n + 2, n + 3)
}

/// Face `k` of the output repeats face `k` of the base mesh: the same three
/// vertex indices, in the same order.
pub open spec fn base_face_kept(faces: Seq<Face>, m: MeshView, k: int) -> bool {
    face_is(faces, k, m.indices[3 * k], m.indices[3 * k + 1], m.indices[3 * k + 2])
}

/// Marker `j` (with geometry `m`) occupies its own block of the output: its
/// four vertices stand at `n0 + 4j` onward, flagged as marker vertices, and
/// its four faces at `f0 + 4j` onward, over exactly those vertices.
pub open spec fn marker_block_at(
    vs: Seq<ColoredVertex>,
    faces: Seq<Face>,
    n0: int,
    f0: int,
    m: Tetrahedron,
    j: int,
) -> bool {
    &&& vs[n0 + 4 * j].point@ == m.vertices_view()[0] && vs[n0 + 4 * j].marker
    &&& vs[n0 + 4 * j + 1].point@ == m.vertices_view()[1] && vs[n0 + 4 * j + 1].marker
    &&& vs[n0 + 4 * j + 2].point@ == m.vertices_view()[2] && vs[n0 + 4 * j + 2].marker
    &&& vs[n0 + 4 * j + 3].point@ == m.vertices_view()[3] && vs[n0 + 4 * j + 3].marker
    &&& marker_faces_at(faces, f0 + 4 * j, n0 + 4 * j)
}

/// Merges the base mesh and the marker geometry into one fresh output mesh:
/// all base vertices first, unchanged and in order, then each marker's four
/// vertices; all base faces first, unchanged and in order, then each
/// marker's four faces over its own four vertices. Vertices are never merged
/// or deduplicated. With no markers the output is the base mesh itself,
/// vertex for vertex and face for face.
pub fn assemble(base: &Mesh, markers: &Vec<Tetrahedron>) -> (out: ColoredMesh)
    requires
        base.wf(),
        forall|j: int| 0 <= j < markers@.len() ==> (#[trigger] markers@[j]).wf(),
        base.vertices@.len() + 4 * markers@.len() <= usize::MAX,
        base.indices@.len() / 3 + 4 * markers@.len() <= usize::MAX,
    ensures
        out.vertices@.len() == base.vertices@.len() + 4 * markers@.len(),
        out.faces@.len() == base.face_count() + 4 * markers@.len(),
        out.wf(),
        forall|i: int|
            0 <= i < base.vertices@.len() ==> (#[trigger] out.vertices@[i]).point@ == (RatVec3 {
                num: base@.vertices[i],
                den: 1,
            }) && !out.vertices@[i].marker,
        forall|k: int| 0 <= k < base.face_count() ==> #[trigger] base_face_kept(out.faces@, base@, k),
        forall|j: int|
            0 <= j < markers@.len() ==> marker_block_at(
                out.vertices@,
                out.faces@,
                base.vertices@.len() as int,
                base.face_count(),
                #[trigger] markers@[j],
                j,
            ),
{
    let mut vertices: Vec<ColoredVertex> = Vec::new();
    let mut i: usize = 0;
    while i < base.vertices.len()
        invariant
            base.wf(),
            i <= base.vertices@.len(),
            vertices@.len() == i,
            forall|p: int|
                0 <= p < i ==> (#[trigger] vertices@[p]).point@ == (RatVec3 {
                    num: base@.vertices[p],
                    den: 1,
                }) && !vertices@[p].marker && rat_bounded(vertices@[p].point@),
        decreases base.vertices@.len() - i,
    {
        proof {
            assert(base@.vertices[i as int] == base.vertices@[i as int]@);
        }
        let cv = ColoredVertex { point: RatPoint::from_point(&base.vertices[i]), marker: false };
        vertices.push(cv);
        i += 1;
    }
    let len0 = base.indices.len();
    let nfaces = len0 / 3;
    proof {
        lemma_fundamental_div_mod(base.indices@.len() as int, 3);
    }
    let mut faces: Vec<Face> = Vec::new();
    let mut k: usize = 0;
    while k < nfaces
        invariant
            base.wf(),
            len0 == base@.indices.len(),
            nfaces == base@.indices.len() / 3,
            3 * nfaces == base@.indices.len(),
            k <= nfaces,
            faces@.len() == k,
            vertices@.len() == base.vertices@.len(),
            forall|p: int| 0 <= p < k ==> #[trigger] base_face_kept(faces@, base@, p),
            forall|p: int|
                0 <= p < k ==> (#[trigger] faces@[p]).a < vertices@.len() && faces@[p].b
                    < vertices@.len() && faces@[p].c < vertices@.len(),
        decreases nfaces - k,
    {
        let a = base.indices[3 * k];
        let b = base.indices[3 * k + 1];
        let c = base.indices[3 * k + 2];
        proof {
            assert(base@.indices[3 * k as int] == a as int);
            assert(base@.indices[3 * k as int + 1] == b as int);
            assert(base@.indices[3 * k as int + 2] == c as int);
        }
        let ghost faces_old = faces@;
        faces.push(Face { a, b, c });
        proof {
            assert(base_face_kept(faces@, base@, k as int));
            assert forall|p: int| 0 <= p < k as int implies #[trigger] base_face_kept(
                faces@,
                base@,
                p,
            ) by {
                assert(base_face_kept(faces_old, base@, p));
                assert(faces@[p] == faces_old[p]);
            }
        }
        k += 1;
    }
    let base_vertex_count = vertices.len();
    let mut j: usize = 0;
    while j < markers.len()
        invariant
            base.wf(),
            forall|p: int| 0 <= p < markers@.len() ==> (#[trigger] markers@[p]).wf(),
            base.vertices@.len() + 4 * markers@.len() <= usize::MAX,
            base@.indices.len() / 3 + 4 * markers@.len() <= usize::MAX,
            nfaces == base@.indices.len() / 3,
            base_vertex_count == base.vertices@.len(),
            j <= markers@.len(),
            vertices@.len() == base.vertices@.len() + 4 * j,
            faces@.len() == nfaces + 4 * j,
            forall|p: int|
                0 <= p < base.vertices@.len() ==> (#[trigger] vertices@[p]).point@ == (RatVec3 {
                    num: base@.vertices[p],
                    den: 1,
                }) && !vertices@[p].marker,
            forall|p: int| 0 <= p < nfaces ==> #[trigger] base_face_kept(faces@, base@, p),
            forall|p: int|
                0 <= p < j ==> marker_block_at(
                    vertices@,
                    faces@,
                    base.vertices@.len() as int,
                    nfaces as int,
                    #[trigger] markers@[p],
                    p,
                ),
            forall|p: int|
                0 <= p < faces@.len() ==> (#[trigger] faces@[p]).a < vertices@.len() && faces@[p].b
                    < vertices@.len() && faces@[p].c < vertices@.len(),
            forall|p: int|
                0 <= p < vertices@.len() ==> rat_bounded((#[trigger] vertices@[p]).point@),
        decreases markers@.len() - j,
    {
        let m = markers[j];
        let n = vertices.len();
        let ghost faces_old = faces@;
        vertices.push(ColoredVertex { point: m.top, marker: true });
        vertices.push(ColoredVertex { point: m.bottoms[0], marker: true });
        vertices.push(ColoredVertex { point: m.bottoms[1], marker: true });
        vertices.push(ColoredVertex { point: m.bottoms[2], marker: true });
        faces.push(Face { a: n, b: n + 1, c: n + 2 });
        faces.push(Face { a: n, b: n + 1, c: n + 3 });
        faces.push(Face { a: n + 1, b: n + 2, c: n + 3 });
        faces.push(Face { a: n, b: n + 2, c: n + 3 });
        proof {
            assert forall|p: int| 0 <= p < nfaces as int implies #[trigger] base_face_kept(
                faces@,
                base@,
                p,
            ) by {
                assert(base_face_kept(faces_old, base@, p));
                assert(faces@[p] == faces_old[p]);
            }
            assert(markers@[j as int].wf());
            assert(rat_bounded(m.vertices_view()[0]));
            assert(rat_bounded(m.vertices_view()[1]));
            assert(rat_bounded(m.vertices_view()[2]));
            assert(rat_bounded(m.vertices_view()[3]));
            assert(marker_block_at(
                vertices@,
                faces@,
                base.vertices@.len() as int,
                nfaces as int,
                markers@[j as int],
                j as int,
            ));
        }
        j += 1;
    }
    ColoredMesh { vertices, faces }
}

} // verus!
