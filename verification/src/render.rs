//! The per-frame pipeline: from a mesh in model space to line segments in
//! pixel coordinates.

use crate::binary32::{product, rounded_product, rounded_sum, sum, HALF, ONE, THREE};
use crate::matrix::Matrix;
use crate::mesh::{outline, Mesh, Segment, Triangle};
use crate::projection::{project, projected};
use crate::vector::Vector3D;
use vstd::prelude::*;

verus! {

/// The distance by which every vertex is moved away from the camera: `3.0`.
pub const DEPTH_OFFSET: u32 = THREE;

/// A point moved away from the camera by the depth offset.
pub open spec fn pushed_back(v: Vector3D) -> Vector3D {
    Vector3D { x: v.x, y: v.y, z: rounded_sum(v.z, DEPTH_OFFSET) }
}

/// A triangle with each vertex moved away from the camera by the depth offset.
pub open spec fn translated(t: Triangle) -> Triangle {
    Triangle { a: pushed_back(t.a), b: pushed_back(t.b), c: pushed_back(t.c) }
}

/// A projected point mapped to a display of `width` by `height` pixels:
/// `(x + 1) * (0.5 * width)` and `(y + 1) * (0.5 * height)`, with z kept.
pub open spec fn in_viewport(v: Vector3D, width: u32, height: u32) -> Vector3D {
    Vector3D {
        x: rounded_product(rounded_sum(v.x, ONE), rounded_product(HALF, width)),
        y: rounded_product(rounded_sum(v.y, ONE), rounded_product(HALF, height)),
        z: v.z,
    }
}

/// A point of model space as it lands on the display: moved back, projected
/// through `m`, and mapped to the viewport.
pub open spec fn placed(v: Vector3D, m: Matrix, width: u32, height: u32) -> Vector3D {
    in_viewport(projected(pushed_back(v), m), width, height)
}

/// A triangle of model space as it lands on the display, vertex by vertex.
pub open spec fn on_screen(t: Triangle, m: Matrix, width: u32, height: u32) -> Triangle {
    Triangle {
        a: placed(t.a, m, width, height),
        b: placed(t.b, m, width, height),
        c: placed(t.c, m, width, height),
    }
}

/// The segments of one frame: the outline of every triangle as it lands on
/// the display, in the order of the mesh.
pub open spec fn frame(triangles: Seq<Triangle>, m: Matrix, width: u32, height: u32) -> Seq<
    Segment,
> {
    outline(triangles.map_values(|t: Triangle| on_screen(t, m, width, height)))
}

fn push_back(v: &Vector3D) -> (r: Vector3D)
    ensures
        r == pushed_back(*v),
{
    Vector3D { x: v.x, y: v.y, z: sum(v.z, DEPTH_OFFSET) }
}

/// Moves a triangle away from the camera by the depth offset. The triangle
/// given is left as it is.
pub fn translate(t: &Triangle) -> (r: Triangle)
    ensures
        r == translated(*t),
{
    Triangle { a: push_back(&t.a), b: push_back(&t.b), c: push_back(&t.c) }
}

/// Maps a projected point to a display of `width` by `height` pixels.
pub fn to_viewport(v: &Vector3D, width: u32, height: u32) -> (r: Vector3D)
    ensures
        r == in_viewport(*v, width, height),
{
    Vector3D {
        x: product(sum(v.x, ONE), product(HALF, width)),
        y: product(sum(v.y, ONE), product(HALF, height)),
        z: v.z,
    }
}

/// Takes a triangle from model space to screen space: moves it back,
/// projects each vertex through `projection`, and maps it to the viewport.
pub fn to_screen(t: &Triangle, projection: &Matrix, width: u32, height: u32) -> (r: Triangle)
    ensures
        r == on_screen(*t, *projection, width, height),
{
    let moved = translate(t);
    Triangle {
        a: to_viewport(&project(&moved.a, projection), width, height),
        b: to_viewport(&project(&moved.b, projection), width, height),
        c: to_viewport(&project(&moved.c, projection), width, height),
    }
}

/// Renders one frame: the three sides of every triangle of `mesh`, in the
/// order of the mesh, as segments on a display of `width` by `height` pixels.
/// The mesh is read and never changed.
pub fn render_frame(mesh: &Mesh, projection: &Matrix, width: u32, height: u32) -> (r: Vec<
    Segment,
>)
    ensures
        r@ == frame(mesh.mat@, *projection, width, height),
        r@.len() == 3 * mesh.mat@.len(),
{
    let mut segments: Vec<Segment> = Vec::new();
    let n = mesh.mat.len();
    let mut i: usize = 0;
    while i < n
        invariant
            n == mesh.mat.len(),
            i <= n,
            segments@ == frame(mesh.mat@.take(i as int), *projection, width, height),
        decreases n - i,
    {
        let sides = to_screen(&mesh.mat[i], projection, width, height).draw();
        segments.push(sides[0]);
        segments.push(sides[1]);
        segments.push(sides[2]);
        i += 1;
        assert(segments@ =~= frame(mesh.mat@.take(i as int), *projection, width, height));
    }
    assert(mesh.mat@.take(n as int) =~= mesh.mat@);
    segments
}

} // verus!
