//! Meshes: the validated input mesh and the assembled, colored output mesh.

use vstd::prelude::*;

use crate::algebra::{v3_bounded, Vec3};
use crate::types::point::{rat_bounded, Point3, RatPoint};
use crate::types::triangle::TriView;
use crate::MAX_COORD;

verus! {

/// Why a mesh fails validation when it is built.
#[derive(Clone, Copy, Debug, PartialEq, Eq, Structural)]
pub enum ValidationError {
    /// The flat index list is not a whole number of triangles.
    IndicesNotTriples,
    /// A vertex coordinate exceeds the supported range.
    CoordinateOutOfRange,
    /// A face index is not below the vertex count.
    FaceIndexOutOfBounds,
}

/// The mathematical value of a mesh: vertex positions and the flat list of
/// vertex indices, three per triangular face.
pub struct MeshView {
    pub vertices: Seq<Vec3>,
    pub indices: Seq<int>,
}

/// A mesh is well formed when its faces come in whole triples, every face
/// index points at a vertex, and every coordinate is in range.
pub open spec fn mesh_wf(m: MeshView) -> bool {
    &&& m.indices.len() % 3 == 0
    &&& forall|k: int| 0 <= k < m.indices.len() ==> 0 <= #[trigger] m.indices[k] < m.vertices.len()
    &&& forall|k: int|
        0 <= k < m.vertices.len() ==> v3_bounded(#[trigger] m.vertices[k], MAX_COORD as int)
}

/// The `k`-th triangular face of the mesh, with vertex order preserved.
pub open spec fn mesh_tri(m: MeshView, k: int) -> TriView {
    TriView {
        v1: m.vertices[m.indices[3 * k]],
        v2: m.vertices[m.indices[3 * k + 1]],
        v3: m.vertices[m.indices[3 * k + 2]],
    }
}

/// A triangulated mesh: vertex positions, and a flat list of vertex indices
/// holding three entries per triangular face. Built through `Mesh::new`,
/// which validates it; the scan and the assembler require the validated
/// shape.
#[derive(Debug)]
pub struct Mesh {
    pub vertices: Vec<Point3>,
    pub indices: Vec<usize>,
}

impl View for Mesh {
    type V = MeshView;

    open spec fn view(&self) -> MeshView {
        MeshView {
            vertices: self.vertices@.map_values(|p: Point3| p@),
            indices: self.indices@.map_values(|i: usize| i as int),
        }
    }
}

impl Mesh {
    pub open spec fn wf(self) -> bool {
        mesh_wf(self@)
    }

    /// The number of triangular faces.
    pub open spec fn face_count(self) -> int {
        self@.indices.len() as int / 3
    }

    /// Builds a mesh after validating it: the index list must be a whole
    /// number of triples, every coordinate must be in range, and every face
    /// index must be below the vertex count. Each error reports the first
    /// of those three checks that fails; a mesh is returned exactly when
    /// all three hold.
    pub fn new(vertices: Vec<Point3>, indices: Vec<usize>) -> (r: Result<Mesh, ValidationError>)
        ensures
            match r {
                Ok(m) => {
                    &&& m == (Mesh { vertices, indices })
                    &&& m.wf()
                },
                Err(e) => {
                    &&& !mesh_wf(
                        MeshView {
                            vertices: vertices@.map_values(|p: Point3| p@),
                            indices: indices@.map_values(|i: usize| i as int),
                        },
                    )
                    &&& (e == ValidationError::IndicesNotTriples <==> indices@.len() % 3 != 0)
                    &&& (e == ValidationError::CoordinateOutOfRange <==> indices@.len() % 3 == 0
                        && exists|k: int|
                        0 <= k < vertices@.len() && !v3_bounded(
                            #[trigger] vertices@[k]@,
                            MAX_COORD as int,
                        ))
                    &&& (e == ValidationError::FaceIndexOutOfBounds <==> indices@.len() % 3 == 0
                        && (forall|k: int|
                        0 <= k < vertices@.len() ==> v3_bounded(
                            #[trigger] vertices@[k]@,
                            MAX_COORD as int,
                        )) && exists|k: int|
                        0 <= k < indices@.len() && #[trigger] indices@[k] >= vertices@.len())
                },
            },
    {
        if indices.len() % 3 != 0 {
            return Err(ValidationError::IndicesNotTriples);
        }
        let mut k: usize = 0;
        while k < vertices.len()
            invariant
                k <= vertices@.len(),
                indices@.len() % 3 == 0,
                forall|j: int|
                    0 <= j < k ==> v3_bounded(#[trigger] vertices@[j]@, MAX_COORD as int),
            decreases vertices@.len() - k,
        {
            let p = vertices[k];
            if p.x < -MAX_COORD || p.x > MAX_COORD || p.y < -MAX_COORD || p.y > MAX_COORD || p.z
                < -MAX_COORD || p.z > MAX_COORD {
                proof {
                    let mv = MeshView {
                        vertices: vertices@.map_values(|q: Point3| q@),
                        indices: indices@.map_values(|i: usize| i as int),
                    };
                    assert(!v3_bounded(vertices@[k as int]@, MAX_COORD as int));
                    assert(mv.vertices[k as int] == vertices@[k as int]@);
                    assert(!mesh_wf(mv));
                }
                return Err(ValidationError::CoordinateOutOfRange);
            }
            k += 1;
        }
        let mut k: usize = 0;
        while k < indices.len()
            invariant
                k <= indices@.len(),
                indices@.len() % 3 == 0,
                forall|j: int| 0 <= j < k ==> #[trigger] indices@[j] < vertices@.len(),
                forall|j: int|
                    0 <= j < vertices@.len() ==> v3_bounded(#[trigger] vertices@[j]@, MAX_COORD as int),
            decreases indices@.len() - k,
        {
            if indices[k] >= vertices.len() {
                proof {
                    let mv = MeshView {
                        vertices: vertices@.map_values(|q: Point3| q@),
                        indices: indices@.map_values(|i: usize| i as int),
                    };
                    assert(indices@[k as int] >= vertices@.len());
                    assert(mv.indices[k as int] == indices@[k as int] as int);
                    assert(mv.vertices.len() == vertices@.len());
                    assert(!mesh_wf(mv));
                }
                return Err(ValidationError::FaceIndexOutOfBounds);
            }
            k += 1;
        }
        Ok(Mesh { vertices, indices })
    }
}

/// A vertex of the assembled output mesh: an exact rational position, and
/// whether it belongs to a marker (the writer colors marker vertices red and
/// original geometry blue).
#[derive(Clone, Copy, Debug)]
pub struct ColoredVertex {
    pub point: RatPoint,
    pub marker: bool,
}

/// A triangular face of the assembled mesh: three vertex indices into its
/// vertex list (0-based).
#[derive(Clone, Copy, Debug, PartialEq, Eq, Structural)]
pub struct Face {
    pub a: usize,
    pub b: usize,
    pub c: usize,
}

/// The assembled output mesh: the base mesh's geometry followed by every
/// marker's geometry. Never mutated in place; the assembler builds a fresh
/// value.
#[derive(Debug)]
pub struct ColoredMesh {
    pub vertices: Vec<ColoredVertex>,
    pub faces: Vec<Face>,
}

impl ColoredMesh {
    /// Every face index points at a vertex, and every vertex is in range.
    pub open spec fn wf(self) -> bool {
        &&& forall|k: int|
            0 <= k < self.faces@.len() ==> (#[trigger] self.faces@[k]).a < self.vertices@.len()
                && self.faces@[k].b < self.vertices@.len() && self.faces@[k].c
                < self.vertices@.len()
        &&& forall|i: int|
            0 <= i < self.vertices@.len() ==> rat_bounded((#[trigger] self.vertices@[i]).point@)
    }
}

} // verus!
