use wireframe::cube::get_cube_mesh;
use wireframe::mesh::VECTOR_LIMIT;
use wireframe::{check_size, Mesh, Segment, Triangle, Vector3D};

fn v(x: f32, y: f32, z: f32) -> Vector3D {
    Vector3D::new(x.to_bits(), y.to_bits(), z.to_bits())
}

fn triangles(count: usize) -> Vec<Triangle> {
    let mut list = Vec::new();
    for k in 0..count {
        let k = k as f32;
        list.push(Triangle::new(v(k, 0.0, 0.0), v(0.0, k, 0.0), v(0.0, 0.0, k)));
    }
    list
}

#[test]
fn check_size_warns_above_the_limit() {
    assert_eq!(check_size(51, 50), Some("Mesh is too big, consider splitting it up"));
    assert!(check_size(usize::MAX, 50).is_some());
    assert!(check_size(1, 0).is_some());
}

#[test]
fn check_size_is_silent_up_to_the_limit() {
    assert_eq!(check_size(50, 50), None);
    assert_eq!(check_size(12, 50), None);
    assert_eq!(check_size(0, 0), None);
    assert_eq!(check_size(0, 50), None);
}

#[test]
fn vector_limit_is_fifty() {
    assert_eq!(VECTOR_LIMIT, 50);
}

#[test]
fn warn_mesh_size_warns_above_fifty_triangles() {
    assert_eq!(Mesh::warn_mesh_size(&triangles(0)), None);
    assert_eq!(Mesh::warn_mesh_size(&triangles(12)), None);
    assert_eq!(Mesh::warn_mesh_size(&triangles(50)), None);
    assert_eq!(
        Mesh::warn_mesh_size(&triangles(51)),
        Some("Mesh is too big, consider splitting it up")
    );
    assert!(Mesh::warn_mesh_size(&triangles(200)).is_some());
}

#[test]
fn warn_triangle_size_never_warns() {
    let vertices = [v(0.0, 0.0, 0.0), v(0.0, 1.0, 0.0), v(1.0, 1.0, 0.0)];
    assert_eq!(Triangle::warn_triangle_size(&vertices), None);
    let vertices = [v(f32::NAN, 0.0, 0.0), v(0.0, f32::INFINITY, 0.0), v(1.0, 1.0, -0.0)];
    assert_eq!(Triangle::warn_triangle_size(&vertices), None);
}

#[test]
fn mesh_new_keeps_every_triangle_even_above_the_limit() {
    let list = triangles(75);
    let mesh = Mesh::new(triangles(75));
    assert_eq!(mesh.mat.len(), 75);
    assert_eq!(mesh.mat, list);
    let empty = Mesh::new(Vec::new());
    assert!(empty.mat.is_empty());
}

#[test]
fn mesh_with_limit_reports_and_keeps_every_triangle() {
    let (mesh, warning) = Mesh::with_limit(triangles(13), 12);
    assert_eq!(warning, Some("Mesh is too big, consider splitting it up"));
    assert_eq!(mesh.mat, triangles(13));
    let (mesh, warning) = Mesh::with_limit(triangles(12), 12);
    assert_eq!(warning, None);
    assert_eq!(mesh.mat, triangles(12));
    let (mesh, warning) = Mesh::with_limit(triangles(51), 50);
    assert!(warning.is_some());
    assert_eq!(mesh.mat.len(), 51);
    let (mesh, warning) = Mesh::with_limit(Vec::new(), 0);
    assert!(warning.is_none());
    assert!(mesh.mat.is_empty());
}

#[test]
fn triangle_draw_gives_its_three_sides_in_order() {
    let t = Triangle::new(v(10.9, 20.1, 5.0), v(-30.5, 40.99, 6.0), v(50.0, -60.7, 7.0));
    let sides = t.draw();
    assert_eq!(sides[0], Segment { x0: 10, y0: 20, x1: -30, y1: 40 });
    assert_eq!(sides[1], Segment { x0: -30, y0: 40, x1: 50, y1: -60 });
    assert_eq!(sides[2], Segment { x0: 50, y0: -60, x1: 10, y1: 20 });
}

#[test]
fn triangle_draw_truncates_as_the_cast_does() {
    let coordinates = [461.7f32, -0.2, 1.0e12, -1.0e12, f32::NAN, 0.999, 361.0, -5.5, 2.5];
    for w in coordinates.windows(6) {
        let t = Triangle::new(v(w[0], w[1], 0.0), v(w[2], w[3], 0.0), v(w[4], w[5], 0.0));
        let sides = t.draw();
        let a = (w[0] as i32, w[1] as i32);
        let b = (w[2] as i32, w[3] as i32);
        let c = (w[4] as i32, w[5] as i32);
        assert_eq!(sides[0], Segment { x0: a.0, y0: a.1, x1: b.0, y1: b.1 });
        assert_eq!(sides[1], Segment { x0: b.0, y0: b.1, x1: c.0, y1: c.1 });
        assert_eq!(sides[2], Segment { x0: c.0, y0: c.1, x1: a.0, y1: a.1 });
    }
}

#[test]
fn mesh_draw_outlines_each_triangle_in_turn() {
    let mesh = Mesh::new(vec![
        Triangle::new(v(1.0, 2.0, 0.0), v(3.0, 4.0, 0.0), v(5.0, 6.0, 0.0)),
        Triangle::new(v(7.5, 8.5, 0.0), v(9.5, 10.5, 0.0), v(11.5, 12.5, 0.0)),
    ]);
    let segments = mesh.draw();
    assert_eq!(
        segments,
        vec![
            Segment { x0: 1, y0: 2, x1: 3, y1: 4 },
            Segment { x0: 3, y0: 4, x1: 5, y1: 6 },
            Segment { x0: 5, y0: 6, x1: 1, y1: 2 },
            Segment { x0: 7, y0: 8, x1: 9, y1: 10 },
            Segment { x0: 9, y0: 10, x1: 11, y1: 12 },
            Segment { x0: 11, y0: 12, x1: 7, y1: 8 },
        ]
    );
    assert!(Mesh::new(Vec::new()).draw().is_empty());
}

#[test]
fn cube_has_twelve_triangles() {
    assert_eq!(get_cube_mesh().mat.len(), 12);
    assert_eq!(Mesh::warn_mesh_size(&get_cube_mesh().mat), None);
}

#[test]
fn cube_triangles_are_the_six_faces_in_order() {
    let expected = vec![
        // south
        Triangle::new(v(0.0, 0.0, 0.0), v(0.0, 1.0, 0.0), v(1.0, 1.0, 0.0)),
        Triangle::new(v(0.0, 0.0, 0.0), v(1.0, 1.0, 0.0), v(1.0, 0.0, 0.0)),
        // east
        Triangle::new(v(1.0, 0.0, 0.0), v(1.0, 1.0, 0.0), v(1.0, 1.0, 1.0)),
        Triangle::new(v(1.0, 0.0, 0.0), v(1.0, 1.0, 1.0), v(1.0, 0.0, 1.0)),
        // north
        Triangle::new(v(1.0, 0.0, 1.0), v(1.0, 1.0, 1.0), v(0.0, 1.0, 1.0)),
        Triangle::new(v(1.0, 0.0, 1.0), v(0.0, 1.0, 1.0), v(0.0, 0.0, 1.0)),
        // west
        Triangle::new(v(0.0, 0.0, 1.0), v(0.0, 1.0, 1.0), v(0.0, 1.0, 0.0)),
        Triangle::new(v(0.0, 0.0, 1.0), v(0.0, 1.0, 0.0), v(0.0, 0.0, 0.0)),
        // top
        Triangle::new(v(0.0, 1.0, 0.0), v(0.0, 1.0, 1.0), v(1.0, 1.0, 1.0)),
        Triangle::new(v(0.0, 1.0, 0.0), v(1.0, 1.0, 1.0), v(1.0, 1.0, 0.0)),
        // bottom
        Triangle::new(v(1.0, 0.0, 1.0), v(0.0, 0.0, 1.0), v(0.0, 0.0, 0.0)),
        Triangle::new(v(1.0, 0.0, 1.0), v(0.0, 0.0, 0.0), v(1.0, 0.0, 0.0)),
    ];
    assert_eq!(get_cube_mesh().mat, expected);
}

#[test]
fn cube_vertices_are_exactly_the_eight_corners() {
    let mut seen: Vec<(u32, u32, u32)> = Vec::new();
    let mut count = 0;
    for t in get_cube_mesh().mat {
        for p in [t.a, t.b, t.c] {
            count += 1;
            let x = f32::from_bits(p.x);
            let y = f32::from_bits(p.y);
            let z = f32::from_bits(p.z);
            assert!((x == 0.0 || x == 1.0) && (y == 0.0 || y == 1.0) && (z == 0.0 || z == 1.0));
            if !seen.contains(&(p.x, p.y, p.z)) {
                seen.push((p.x, p.y, p.z));
            }
        }
    }
    assert_eq!(count, 36);
    assert_eq!(seen.len(), 8);
    for x in [0.0f32, 1.0] {
        for y in [0.0f32, 1.0] {
            for z in [0.0f32, 1.0] {
                assert!(seen.contains(&(x.to_bits(), y.to_bits(), z.to_bits())));
            }
        }
    }
}

#[test]
fn cube_faces_are_split_along_a_shared_diagonal() {
    let mesh = get_cube_mesh();
    for f in 0..6 {
        let first = &mesh.mat[2 * f];
        let second = &mesh.mat[2 * f + 1];
        assert_eq!(first.a, second.a);
        assert_eq!(first.c, second.b);
    }
}

#[test]
fn cube_is_the_same_every_time() {
    assert_eq!(get_cube_mesh().mat, get_cube_mesh().mat);
}
