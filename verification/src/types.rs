//! The value types of the library: geometry primitives, meshes, and the
//! intersection and marker records built from them.

pub mod intersection;
pub mod line_segment;
pub mod mesh;
pub mod point;
pub mod tetrahedron;
pub mod triangle;
