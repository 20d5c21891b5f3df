//! The unit cube as a mesh of twelve triangles.

use crate::binary32::{ONE, ZERO};
use crate::mesh::{Mesh, Triangle};
use crate::vector::Vector3D;
use vstd::prelude::*;

verus! {

/// The corner of the unit cube at `(x, y, z)`, each coordinate being 0 or 1.
pub open spec fn corner(x: int, y: int, z: int) -> Vector3D {
    Vector3D {
        x: if x == 0 { ZERO } else { ONE },
        y: if y == 0 { ZERO } else { ONE },
        z: if z == 0 { ZERO } else { ONE },
    }
}

/// The four corners of face `f`, in the order in which they are wound. The
/// faces are numbered south, east, north, west, top, bottom.
pub open spec fn face(f: int) -> Seq<Vector3D> {
    if f == 0 {
        seq![corner(0, 0, 0), corner(0, 1, 0), corner(1, 1, 0), corner(1, 0, 0)]
    } else if f == 1 {
        seq![corner(1, 0, 0), corner(1, 1, 0), corner(1, 1, 1), corner(1, 0, 1)]
    } else if f == 2 {
        seq![corner(1, 0, 1), corner(1, 1, 1), corner(0, 1, 1), corner(0, 0, 1)]
    } else if f == 3 {
        seq![corner(0, 0, 1), corner(0, 1, 1), corner(0, 1, 0), corner(0, 0, 0)]
    } else if f == 4 {
        seq![corner(0, 1, 0), corner(0, 1, 1), corner(1, 1, 1), corner(1, 1, 0)]
    } else {
        seq![corner(1, 0, 1), corner(0, 0, 1), corner(0, 0, 0), corner(1, 0, 0)]
    }
}

/// The two triangles that a quadrilateral splits into along the diagonal
/// from its first corner to its third.
pub open spec fn halves(q: Seq<Vector3D>) -> Seq<Triangle> {
    seq![Triangle { a: q[0], b: q[1], c: q[2] }, Triangle { a: q[0], b: q[2], c: q[3] }]
}

/// The twelve triangles of the unit cube: the two halves of each face, face
/// after face.
pub open spec fn unit_cube() -> Seq<Triangle> {
    Seq::new(12, |k: int| halves(face(k / 2))[k % 2])
}

/// Whether `v` is one of the eight corners of the unit cube.
pub open spec fn is_corner(v: Vector3D) -> bool {
    (v.x == ZERO || v.x == ONE) && (v.y == ZERO || v.y == ONE) && (v.z == ZERO || v.z == ONE)
}

/// Whether `v` is one of the three vertices of `t`.
pub open spec fn has_vertex(t: Triangle, v: Vector3D) -> bool {
    t.a == v || t.b == v || t.c == v
}

/// Whether `v` is a vertex of one of the given triangles.
pub open spec fn is_vertex(triangles: Seq<Triangle>, v: Vector3D) -> bool {
    exists|k: int| 0 <= k < triangles.len() && #[trigger] has_vertex(triangles[k], v)
}

fn push_face(triangles: &mut Vec<Triangle>, a: Vector3D, b: Vector3D, c: Vector3D, d: Vector3D)
    ensures
        final(triangles)@ == old(triangles)@ + halves(seq![a, b, c, d]),
{
    triangles.push(Triangle::new(a, b, c));
    triangles.push(Triangle::new(a, c, d));
    assert(triangles@ =~= old(triangles)@ + halves(seq![a, b, c, d]));
}

/// The unit cube with corners from `(0, 0, 0)` to `(1, 1, 1)`: two triangles
/// for each of its six faces.
pub fn get_cube_mesh() -> (r: Mesh)
    ensures
        r.mat@ == unit_cube(),
{
    let o: u32 = ZERO;
    let i: u32 = ONE;
    let mut triangles: Vec<Triangle> = Vec::new();
    // south
    push_face(
        &mut triangles,
        Vector3D::new(o, o, o),
        Vector3D::new(o, i, o),
        Vector3D::new(i, i, o),
        Vector3D::new(i, o, o),
    );
    // east
    push_face(
        &mut triangles,
        Vector3D::new(i, o, o),
        Vector3D::new(i, i, o),
        Vector3D::new(i, i, i),
        Vector3D::new(i, o, i),
    );
    // north
    push_face(
        &mut triangles,
        Vector3D::new(i, o, i),
        Vector3D::new(i, i, i),
        Vector3D::new(o, i, i),
        Vector3D::new(o, o, i),
    );
    // west
    push_face(
        &mut triangles,
        Vector3D::new(o, o, i),
        Vector3D::new(o, i, i),
        Vector3D::new(o, i, o),
        Vector3D::new(o, o, o),
    );
    // top
    push_face(
        &mut triangles,
        Vector3D::new(o, i, o),
        Vector3D::new(o, i, i),
        Vector3D::new(i, i, i),
        Vector3D::new(i, i, o),
    );
    // bottom
    push_face(
        &mut triangles,
        Vector3D::new(i, o, i),
        Vector3D::new(o, o, i),
        Vector3D::new(o, o, o),
        Vector3D::new(i, o, o),
    );
    assert(triangles@ =~= unit_cube());
    Mesh::new(triangles)
}

/// The unit cube has twelve triangles, and a point is a vertex of one of
/// them exactly if it is one of the eight corners: every vertex is a corner,
/// and every corner is a vertex of some triangle.
pub proof fn lemma_cube_vertices_are_the_corners(v: Vector3D)
    ensures
        unit_cube().len() == 12,
        is_vertex(unit_cube(), v) <==> is_corner(v),
{
    let cube = unit_cube();
    if is_vertex(cube, v) {
        let k = choose|k: int| 0 <= k < cube.len() && #[trigger] has_vertex(cube[k], v);
        assert(is_corner(cube[k].a) && is_corner(cube[k].b) && is_corner(cube[k].c));
    }
    if is_corner(v) {
        // The south and north faces hold all eight corners between them.
        if v.z == ZERO {
            if v.x == v.y {
                assert(has_vertex(cube[0], v));
            } else if v.x == ZERO {
                assert(has_vertex(cube[0], v));
            } else {
                assert(has_vertex(cube[1], v));
            }
        } else {
            if v.x == v.y {
                if v.x == ZERO {
                    assert(has_vertex(cube[5], v));
                } else {
                    assert(has_vertex(cube[4], v));
                }
            } else {
                assert(has_vertex(cube[4], v));
            }
        }
    }
}

/// The two triangles of each face of the unit cube share the diagonal that
/// runs from the face's first corner to its third.
pub proof fn lemma_cube_faces_share_a_diagonal(f: int)
    requires
        0 <= f < 6,
    ensures
        unit_cube()[2 * f].a == unit_cube()[2 * f + 1].a,
        unit_cube()[2 * f].c == unit_cube()[2 * f + 1].b,
{
}

} // verus!
