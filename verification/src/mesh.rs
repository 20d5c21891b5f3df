//! Triangles, meshes of triangles, and the line segments that outline them.

use crate::binary32::{truncate, truncated};
use crate::vector::Vector3D;
use vstd::prelude::*;

verus! {

/// The number of triangles above which a mesh is reported as too big.
pub const VECTOR_LIMIT: usize = 50;

/// A line segment between two pixels, from `(x0, y0)` to `(x1, y1)`.
#[derive(Debug, Clone, Copy, PartialEq, Eq, Structural)]
pub struct Segment {
    /// The horizontal coordinate of the first end.
    pub x0: i32,
    /// The vertical coordinate of the first end.
    pub y0: i32,
    /// The horizontal coordinate of the second end.
    pub x1: i32,
    /// The vertical coordinate of the second end.
    pub y1: i32,
}

/// Three vertices `a`, `b` and `c`, in whatever coordinate space the caller
/// keeps them.
#[derive(Debug, PartialEq, Eq, Structural)]
pub struct Triangle {
    /// The first vertex.
    pub a: Vector3D,
    /// The second vertex.
    pub b: Vector3D,
    /// The third vertex.
    pub c: Vector3D,
}

/// The segment that joins two points after each of their x and y components
/// has been truncated toward zero to a pixel coordinate.
pub open spec fn segment_between(p: Vector3D, q: Vector3D) -> Segment {
    Segment {
        x0: truncated(p.x) as i32,
        y0: truncated(p.y) as i32,
        x1: truncated(q.x) as i32,
        y1: truncated(q.y) as i32,
    }
}

/// The message for a mesh of more triangles than its limit allows.
pub open spec fn mesh_warning() -> Seq<char> {
    "Mesh is too big, consider splitting it up"@
}

/// The message for a triangle of more than three vertices.
pub open spec fn triangle_warning() -> Seq<char> {
    "Triangle is too big, consider splitting it up"@
}

/// What is reported about `count` items under a limit of `limit`: the given
/// message if there are more than the limit allows, and nothing otherwise.
pub open spec fn size_warning(count: nat, limit: nat, message: Seq<char>) -> Option<Seq<char>> {
    if count > limit {
        Some(message)
    } else {
        None
    }
}

/// The text of an optional message.
pub open spec fn text_of(message: Option<&'static str>) -> Option<Seq<char>> {
    match message {
        Some(s) => Some(s@),
        None => None,
    }
}

/// Reports a mesh of `count` triangles that exceeds `limit`. The report is
/// advice only: nothing is rejected or shortened on its account.
pub fn check_size(count: usize, limit: usize) -> (r: Option<&'static str>)
    ensures
        text_of(r) == size_warning(count as nat, limit as nat, mesh_warning()),
{
    if count > limit {
        Some("Mesh is too big, consider splitting it up")
    } else {
        None
    }
}

fn segment(p: &Vector3D, q: &Vector3D) -> (r: Segment)
    ensures
        r == segment_between(*p, *q),
{
    Segment { x0: truncate(p.x), y0: truncate(p.y), x1: truncate(q.x), y1: truncate(q.y) }
}

impl Clone for Triangle {
    /// A clone has the same three vertices.
    fn clone(&self) -> (r: Self)
        ensures
            r == *self,
    {
        Self { a: self.a.clone(), b: self.b.clone(), c: self.c.clone() }
    }
}

impl Default for Triangle {
    /// The triangle whose three vertices are the zero vector.
    fn default() -> (r: Self)
        ensures
            r == (Triangle { a: Vector3D::zero(), b: Vector3D::zero(), c: Vector3D::zero() }),
    {
        Self { a: Vector3D::default(), b: Vector3D::default(), c: Vector3D::default() }
    }
}

impl Triangle {
    /// The three sides in drawing order: `a` to `b`, `b` to `c`, `c` to `a`.
    pub open spec fn edges(self) -> Seq<Segment> {
        seq![
            segment_between(self.a, self.b),
            segment_between(self.b, self.c),
            segment_between(self.c, self.a),
        ]
    }

    /// Checks a triangle's vertex list against the three vertices that a
    /// triangle has. A list of three never exceeds it, so nothing is reported.
    pub fn warn_triangle_size(mat: &[Vector3D; 3]) -> (r: Option<&'static str>)
        ensures
            text_of(r) == size_warning(3, 3, triangle_warning()),
            r is None,
    {
        if mat.len() > 3 {
            Some("Triangle is too big, consider splitting it up")
        } else {
            None
        }
    }

    /// The triangle with the given vertices.
    pub fn new(a: Vector3D, b: Vector3D, c: Vector3D) -> (r: Self)
        ensures
            r == (Triangle { a, b, c }),
    {
        Self { a, b, c }
    }

    /// The triangle's outline as three segments in pixel coordinates, for a
    /// triangle that is held in screen space.
    pub fn draw(&self) -> (r: [Segment; 3])
        ensures
            r@ == self.edges(),
    {
        let r = [segment(&self.a, &self.b), segment(&self.b, &self.c), segment(&self.c, &self.a)];
        assert(r@ =~= self.edges());
        r
    }
}

/// An ordered collection of triangles.
#[derive(Debug)]
pub struct Mesh {
    /// The triangles, in drawing order.
    pub mat: Vec<Triangle>,
}

/// The outlines of a sequence of triangles, one after the other: segment
/// `3 * k + j` is side `j` of triangle `k`.
pub open spec fn outline(triangles: Seq<Triangle>) -> Seq<Segment> {
    Seq::new(3 * triangles.len(), |k: int| triangles[k / 3].edges()[k % 3])
}

impl Mesh {
    /// Reports a list of more than `VECTOR_LIMIT` triangles.
    pub fn warn_mesh_size(mat: &Vec<Triangle>) -> (r: Option<&'static str>)
        ensures
            text_of(r) == size_warning(mat.len() as nat, VECTOR_LIMIT as nat, mesh_warning()),
    {
        check_size(mat.len(), VECTOR_LIMIT)
    }

    /// The mesh of the given triangles, together with what the size check
    /// reports about them under a limit of `limit`. The mesh holds all of
    /// them, in their order, whatever is reported.
    pub fn with_limit(mat: Vec<Triangle>, limit: usize) -> (r: (Self, Option<&'static str>))
        ensures
            r.0.mat == mat,
            text_of(r.1) == size_warning(mat.len() as nat, limit as nat, mesh_warning()),
    {
        let warning = check_size(mat.len(), limit);
        (Self { mat }, warning)
    }

    /// The mesh of the given triangles. The size is checked against
    /// `VECTOR_LIMIT`, and the mesh is built from all of them whatever the
    /// check reports.
    pub fn new(mat: Vec<Triangle>) -> (r: Self)
        ensures
            r.mat == mat,
    {
        Self::with_limit(mat, VECTOR_LIMIT).0
    }

    /// The outline of every triangle, in the order of the mesh, for a mesh
    /// that is held in screen space.
    pub fn draw(&self) -> (r: Vec<Segment>)
        ensures
            r@ == outline(self.mat@),
    {
        let mut segments: Vec<Segment> = Vec::new();
        let n = self.mat.len();
        let mut i: usize = 0;
        while i < n
            invariant
                n == self.mat.len(),
                i <= n,
                segments@ == outline(self.mat@.take(i as int)),
            decreases n - i,
        {
            let sides = self.mat[i].draw();
            segments.push(sides[0]);
            segments.push(sides[1]);
            segments.push(sides[2]);
            i += 1;
            assert(segments@ =~= outline(self.mat@.take(i as int)));
        }
        assert(self.mat@.take(n as int) =~= self.mat@);
        segments
    }
}

} // verus!
