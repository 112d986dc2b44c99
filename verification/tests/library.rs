use three_dimensional_model_simulation::types::intersection::Intersection;
use three_dimensional_model_simulation::types::line_segment::LineSegment;
use three_dimensional_model_simulation::types::mesh::{Mesh, ValidationError};
use three_dimensional_model_simulation::types::point::{Point3, RatPoint};
use three_dimensional_model_simulation::types::tetrahedron::Tetrahedron;
use three_dimensional_model_simulation::types::triangle::Triangle;
use three_dimensional_model_simulation::{
    assemble, found_intersections, generate_triangles, synthesize_markers, MARKER_EDGE_LENGTH,
    MAX_COORD,
};

fn seg(sx: i64, sy: i64, sz: i64, ex: i64, ey: i64, ez: i64) -> LineSegment {
    LineSegment::new(Point3::new(sx, sy, sz), Point3::new(ex, ey, ez))
}

fn xy_triangle() -> Triangle {
    // A right triangle in the plane z = 0.
    Triangle::new(Point3::new(0, 0, 0), Point3::new(10, 0, 0), Point3::new(0, 10, 0))
}

#[test]
fn hit_through_interior_is_exact() {
    let t = xy_triangle();
    let s = seg(2, 3, -5, 2, 3, 5);
    let p = t.intersection_with_line(&s).expect("segment crosses the interior");
    // The exact hit point is (2, 3, 0).
    assert_eq!(p.den, 1000);
    assert_eq!(p.x, 2 * p.den);
    assert_eq!(p.y, 3 * p.den);
    assert_eq!(p.z, 0);
}

#[test]
fn parallel_segment_misses() {
    let t = xy_triangle();
    // The direction lies in a plane parallel to the triangle's plane.
    let s = seg(0, 0, 5, 10, 10, 5);
    assert!(t.intersection_with_line(&s).is_none());
}

#[test]
fn crossing_outside_edges_misses() {
    let t = xy_triangle();
    // Crosses the plane z = 0 at (20, 20), far outside the triangle.
    let s = seg(20, 20, -5, 20, 20, 5);
    assert!(t.intersection_with_line(&s).is_none());
}

#[test]
fn crossing_behind_start_misses() {
    let t = xy_triangle();
    // The plane crossing lies behind the segment's start.
    let s = seg(2, 3, 5, 2, 3, 15);
    assert!(t.intersection_with_line(&s).is_none());
}

#[test]
fn crossing_beyond_end_still_hits() {
    // The test treats the segment as a forward ray: a crossing beyond `end`
    // registers too.
    let t = xy_triangle();
    let s = seg(2, 3, -5, 2, 3, -1);
    let p = t.intersection_with_line(&s).expect("the forward ray crosses the triangle");
    assert_eq!(p.den, 400);
    assert_eq!(p.x, 2 * p.den);
    assert_eq!(p.y, 3 * p.den);
    assert_eq!(p.z, 0);
}

#[test]
fn degenerate_segment_is_rejected() {
    let t = xy_triangle();
    let s = seg(2, 3, -5, 2, 3, -5);
    assert!(t.intersection_with_line(&s).is_none());
}

#[test]
fn degenerate_triangle_is_rejected() {
    // Collinear vertices: zero area, reported as no intersection, no panic.
    let t = Triangle::new(Point3::new(0, 0, 0), Point3::new(5, 5, 5), Point3::new(10, 10, 10));
    let s = seg(1, 2, -5, 1, 2, 5);
    assert!(t.intersection_with_line(&s).is_none());
}

#[test]
fn translating_triangle_and_segment_translates_the_hit() {
    let (dx, dy, dz) = (7i64, -11i64, 13i64);
    let t = Triangle::new(
        Point3::new(dx, dy, dz),
        Point3::new(10 + dx, dy, dz),
        Point3::new(dx, 10 + dy, dz),
    );
    let s = seg(2 + dx, 3 + dy, -5 + dz, 2 + dx, 3 + dy, 5 + dz);
    let p = t.intersection_with_line(&s).expect("translated segment still hits");
    // The hit point is the original (2, 3, 0) moved by the displacement.
    assert_eq!(p.den, 1000);
    assert_eq!(p.x, (2 + dx as i128) * p.den);
    assert_eq!(p.y, (3 + dy as i128) * p.den);
    assert_eq!(p.z, dz as i128 * p.den);
}

#[test]
fn mesh_validation_accepts_a_good_mesh() {
    let vertices = vec![Point3::new(0, 0, 0), Point3::new(10, 0, 0), Point3::new(0, 10, 0)];
    let indices: Vec<usize> = vec![0, 1, 2];
    let m = Mesh::new(vertices, indices).expect("a valid mesh");
    assert_eq!(m.vertices.len(), 3);
    assert_eq!(m.indices.len(), 3);
}

#[test]
fn mesh_validation_rejects_partial_triples() {
    let vertices = vec![Point3::new(0, 0, 0), Point3::new(10, 0, 0), Point3::new(0, 10, 0)];
    let indices: Vec<usize> = vec![0, 1, 2, 1];
    assert_eq!(Mesh::new(vertices, indices).unwrap_err(), ValidationError::IndicesNotTriples);
}

#[test]
fn mesh_validation_rejects_out_of_range_coordinates() {
    let vertices =
        vec![Point3::new(MAX_COORD + 1, 0, 0), Point3::new(10, 0, 0), Point3::new(0, 10, 0)];
    let indices: Vec<usize> = vec![0, 1, 2];
    assert_eq!(Mesh::new(vertices, indices).unwrap_err(), ValidationError::CoordinateOutOfRange);
}

#[test]
fn mesh_validation_rejects_dangling_face_indices() {
    let vertices = vec![Point3::new(0, 0, 0), Point3::new(10, 0, 0), Point3::new(0, 10, 0)];
    let indices: Vec<usize> = vec![0, 1, 5];
    assert_eq!(Mesh::new(vertices, indices).unwrap_err(), ValidationError::FaceIndexOutOfBounds);
}

/// Three faces; the segment hits exactly the first and the third. The scan
/// must report exactly those two, in face order.
#[test]
fn scan_reports_hits_in_face_order() {
    let vertices = vec![
        // Face 0: the plane z = 0, contains (2, 3).
        Point3::new(0, 0, 0),
        Point3::new(10, 0, 0),
        Point3::new(0, 10, 0),
        // Face 1: far away, never hit.
        Point3::new(100, 100, 0),
        Point3::new(110, 100, 0),
        Point3::new(100, 110, 0),
        // Face 2: the plane z = 10, contains (2, 3).
        Point3::new(0, 0, 10),
        Point3::new(10, 0, 10),
        Point3::new(0, 10, 10),
    ];
    let indices: Vec<usize> = vec![0, 1, 2, 3, 4, 5, 6, 7, 8];
    let mesh = Mesh::new(vertices, indices).expect("a valid mesh");
    let line = seg(2, 3, -5, 2, 3, 5);
    assert_eq!(generate_triangles(&mesh).len(), 3);
    let found = found_intersections(&line, &mesh);
    assert_eq!(found.intersections.len(), 2);
    // First record: face 0, hit point (2, 3, 0).
    let p0 = &found.intersections[0].points;
    assert_eq!(p0.x, 2 * p0.den);
    assert_eq!(p0.y, 3 * p0.den);
    assert_eq!(p0.z, 0);
    // Second record: face 2, hit point (2, 3, 10).
    let p1 = &found.intersections[1].points;
    assert_eq!(p1.x, 2 * p1.den);
    assert_eq!(p1.y, 3 * p1.den);
    assert_eq!(p1.z, 10 * p1.den);
    assert_eq!(found.intersections[0].edge_length, MARKER_EDGE_LENGTH);
    assert_eq!(found.intersections[1].edge_length, MARKER_EDGE_LENGTH);
}

#[test]
fn synthesized_marker_has_exactly_four_fixed_vertices() {
    let i = Intersection::new(RatPoint { x: 3, y: 5, z: 7, den: 2 }, 500_000);
    let t = Tetrahedron::from_intersection(&i);
    let shift = 2 * 500_000i128;
    assert_eq!((t.top.x, t.top.y, t.top.z, t.top.den), (3 + shift, 5, 7, 2));
    assert_eq!(
        (t.bottoms[0].x, t.bottoms[0].y, t.bottoms[0].z, t.bottoms[0].den),
        (3, 5 + shift, 7, 2),
    );
    assert_eq!(
        (t.bottoms[1].x, t.bottoms[1].y, t.bottoms[1].z, t.bottoms[1].den),
        (3, 5, 7 + shift, 2),
    );
    assert_eq!(
        (t.bottoms[2].x, t.bottoms[2].y, t.bottoms[2].z, t.bottoms[2].den),
        (3 - shift, 5 - shift, 7 - shift, 2),
    );
}

#[test]
fn assemble_appends_marker_blocks() {
    let vertices = vec![Point3::new(0, 0, 0), Point3::new(10, 0, 0), Point3::new(0, 10, 0)];
    let indices: Vec<usize> = vec![0, 1, 2];
    let base = Mesh::new(vertices, indices).expect("a valid mesh");
    let markers = vec![
        Tetrahedron::from_intersection(&Intersection::new(
            RatPoint { x: 0, y: 0, z: 0, den: 1 },
            5,
        )),
        Tetrahedron::from_intersection(&Intersection::new(
            RatPoint { x: 1, y: 2, z: 3, den: 1 },
            5,
        )),
    ];
    let out = assemble(&base, &markers);
    assert_eq!(out.vertices.len(), 3 + 4 * 2);
    assert_eq!(out.faces.len(), 1 + 4 * 2);
    // The base face is kept first, unchanged.
    assert_eq!((out.faces[0].a, out.faces[0].b, out.faces[0].c), (0, 1, 2));
    // The first marker's block: vertices 3..7, faces over exactly those.
    assert_eq!((out.faces[1].a, out.faces[1].b, out.faces[1].c), (3, 4, 5));
    assert_eq!((out.faces[2].a, out.faces[2].b, out.faces[2].c), (3, 4, 6));
    assert_eq!((out.faces[3].a, out.faces[3].b, out.faces[3].c), (4, 5, 6));
    assert_eq!((out.faces[4].a, out.faces[4].b, out.faces[4].c), (3, 5, 6));
    // The second marker's block: vertices 7..11.
    assert_eq!((out.faces[5].a, out.faces[5].b, out.faces[5].c), (7, 8, 9));
    assert_eq!((out.faces[8].a, out.faces[8].b, out.faces[8].c), (7, 9, 10));
    // Marker vertex values and flags.
    assert!(!out.vertices[0].marker);
    assert!(out.vertices[3].marker);
    assert_eq!((out.vertices[3].point.x, out.vertices[3].point.den), (5, 1));
    assert_eq!((out.vertices[10].point.x, out.vertices[10].point.y), (1 - 5, 2 - 5));
    // Every face index points at a vertex.
    for f in &out.faces {
        assert!(f.a < out.vertices.len() && f.b < out.vertices.len() && f.c < out.vertices.len());
    }
}

/// A unit cube (in fixed-point units of one millionth of a model unit) with
/// 8 vertices and 12 triangular faces, pierced by the segment from the
/// origin to (2, 0, 2) model units: the ray crosses exactly two faces of the
/// cube, and the assembled output holds 8 + 4*2 vertices and 12 + 4*2 faces.
#[test]
fn unit_cube_end_to_end() {
    let (x0, x1) = (500_000i64, 1_500_000i64);
    let (y0, y1) = (-500_000i64, 500_000i64);
    let (z0, z1) = (250_000i64, 1_250_000i64);
    let vertices = vec![
        Point3::new(x0, y0, z0),
        Point3::new(x1, y0, z0),
        Point3::new(x1, y1, z0),
        Point3::new(x0, y1, z0),
        Point3::new(x0, y0, z1),
        Point3::new(x1, y0, z1),
        Point3::new(x1, y1, z1),
        Point3::new(x0, y1, z1),
    ];
    let indices: Vec<usize> = vec![
        0, 1, 2, 0, 2, 3, // bottom
        4, 5, 6, 4, 6, 7, // top
        0, 1, 5, 0, 5, 4, // front
        3, 2, 6, 3, 6, 7, // back
        0, 3, 7, 0, 7, 4, // left
        1, 2, 6, 1, 6, 5, // right
    ];
    let mesh = Mesh::new(vertices, indices).expect("a valid cube mesh");
    let line = seg(0, 0, 0, 2_000_000, 0, 2_000_000);
    let found = found_intersections(&line, &mesh);
    assert_eq!(found.intersections.len(), 2);
    // In face order: the top face (z = z1) comes before the left face
    // (x = x0) in the index list. Each hit point lies on its face's plane.
    let p_top = &found.intersections[0].points;
    assert_eq!(p_top.z, z1 as i128 * p_top.den);
    assert_eq!(p_top.x, 1_250_000 * p_top.den);
    assert_eq!(p_top.y, 0);
    let p_left = &found.intersections[1].points;
    assert_eq!(p_left.x, x0 as i128 * p_left.den);
    assert_eq!(p_left.z, 500_000 * p_left.den);
    assert_eq!(p_left.y, 0);
    let markers = synthesize_markers(&found);
    assert_eq!(markers.len(), 2);
    let out = assemble(&mesh, &markers);
    assert_eq!(out.vertices.len(), 8 + 4 * 2);
    assert_eq!(out.faces.len(), 12 + 4 * 2);
    for f in &out.faces {
        assert!(f.a < out.vertices.len() && f.b < out.vertices.len() && f.c < out.vertices.len());
    }
}

/// A segment entirely outside the cube, pointing away from it: no
/// intersections, and the assembled output repeats the input mesh exactly.
#[test]
fn segment_outside_mesh_leaves_it_unchanged() {
    let vertices = vec![
        Point3::new(500_000, -500_000, 250_000),
        Point3::new(1_500_000, -500_000, 250_000),
        Point3::new(1_500_000, 500_000, 250_000),
        Point3::new(500_000, 500_000, 250_000),
        Point3::new(500_000, -500_000, 1_250_000),
        Point3::new(1_500_000, -500_000, 1_250_000),
        Point3::new(1_500_000, 500_000, 1_250_000),
        Point3::new(500_000, 500_000, 1_250_000),
    ];
    let indices: Vec<usize> = vec![
        0, 1, 2, 0, 2, 3, 4, 5, 6, 4, 6, 7, 0, 1, 5, 0, 5, 4, 3, 2, 6, 3, 6, 7, 0, 3, 7, 0, 7, 4,
        1, 2, 6, 1, 6, 5,
    ];
    let mesh = Mesh::new(vertices, indices).expect("a valid cube mesh");
    let line = seg(5_000_000, 5_000_000, 5_000_000, 6_000_000, 6_000_000, 6_000_000);
    let found = found_intersections(&line, &mesh);
    assert_eq!(found.intersections.len(), 0);
    let markers = synthesize_markers(&found);
    let out = assemble(&mesh, &markers);
    assert_eq!(out.vertices.len(), mesh.vertices.len());
    assert_eq!(out.faces.len(), mesh.indices.len() / 3);
    for (i, v) in out.vertices.iter().enumerate() {
        assert!(!v.marker);
        assert_eq!(v.point.den, 1);
        assert_eq!(v.point.x, mesh.vertices[i].x as i128);
        assert_eq!(v.point.y, mesh.vertices[i].y as i128);
        assert_eq!(v.point.z, mesh.vertices[i].z as i128);
    }
    for (k, f) in out.faces.iter().enumerate() {
        assert_eq!(f.a, mesh.indices[3 * k]);
        assert_eq!(f.b, mesh.indices[3 * k + 1]);
        assert_eq!(f.c, mesh.indices[3 * k + 2]);
    }
}
