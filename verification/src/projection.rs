//! Perspective projection of a point through a 4x4 matrix.

use crate::binary32::{
    difference, is_finite, is_nan, is_zero, negate, negated, product, quotient, rounded_difference,
    rounded_product, rounded_quotient, rounded_sum, spec_is_zero, sum, ONE, SIGN_BIT, ZERO,
};
use crate::matrix::Matrix;
use crate::vector::Vector3D;
use vstd::prelude::*;

verus! {

/// Column `j` of the row vector `(v.x, v.y, v.z, 1)` times `m`:
/// `v.x * m[0][j] + v.y * m[1][j] + v.z * m[2][j] + m[3][j]`, each product
/// and each sum rounded, the sums taken from left to right.
pub open spec fn column(v: Vector3D, m: Matrix, j: int) -> u32 {
    rounded_sum(
        rounded_sum(
            rounded_sum(rounded_product(v.x, m.entry(0, j)), rounded_product(v.y, m.entry(1, j))),
            rounded_product(v.z, m.entry(2, j)),
        ),
        m.entry(3, j),
    )
}

/// The projection of `v` through `m`: columns 0 to 2 of the product, each
/// divided by the weight in column 3 unless the weight compares equal to
/// zero, in which case they are left undivided.
pub open spec fn projected(v: Vector3D, m: Matrix) -> Vector3D {
    let w = column(v, m, 3);
    if spec_is_zero(w) {
        Vector3D { x: column(v, m, 0), y: column(v, m, 1), z: column(v, m, 2) }
    } else {
        Vector3D {
            x: rounded_quotient(column(v, m, 0), w),
            y: rounded_quotient(column(v, m, 1), w),
            z: rounded_quotient(column(v, m, 2), w),
        }
    }
}

/// Whether no component of `v` is an infinity or a NaN.
pub open spec fn finite_vector(v: Vector3D) -> bool {
    is_finite(v.x) && is_finite(v.y) && is_finite(v.z)
}

/// Whether every entry of `m` is `+0.0`, except that the entry in row 3 and
/// column 3 is `corner`.
pub open spec fn zero_but_corner(m: Matrix, corner: u32) -> bool {
    forall|i: int, j: int|
        0 <= i < 4 && 0 <= j < 4 ==> #[trigger] m.entry(i, j) == (if i == 3 && j == 3 {
            corner
        } else {
            ZERO
        })
}

/// The entry in row `i` and column `j` of the perspective matrix for a
/// display of `width` by `height` pixels, a field of view whose half has the
/// tangent `tangent`, and clipping planes at the distances `near` and `far`.
///
/// With `scale = 1 / tangent` and `depth = far - near`, the matrix holds
/// `(height / width) * scale` and `scale` at the head of its diagonal, then
/// `far / depth`; `(-far * near) / depth` below that, in row 3; and `1.0` in
/// row 2 of column 3, which makes the depth of a point its weight. All other
/// entries are `+0.0`.
pub open spec fn perspective_entry(
    i: int,
    j: int,
    width: u32,
    height: u32,
    tangent: u32,
    near: u32,
    far: u32,
) -> u32 {
    let scale = rounded_quotient(ONE, tangent);
    let depth = rounded_difference(far, near);
    if i == 0 && j == 0 {
        rounded_product(rounded_quotient(height, width), scale)
    } else if i == 1 && j == 1 {
        scale
    } else if i == 2 && j == 2 {
        rounded_quotient(far, depth)
    } else if i == 3 && j == 2 {
        rounded_quotient(rounded_product(negated(far), near), depth)
    } else if i == 2 && j == 3 {
        ONE
    } else {
        ZERO
    }
}

fn column_of(v: &Vector3D, m: &Matrix, j: usize) -> (r: u32)
    requires
        j < 4,
    ensures
        r == column(*v, *m, j as int),
        finite_vector(*v) && m.entry(0, j as int) == ZERO && m.entry(1, j as int) == ZERO
            && m.entry(2, j as int) == ZERO && !is_nan(m.entry(3, j as int)) && m.entry(
            3,
            j as int,
        ) != SIGN_BIT ==> r == m.entry(3, j as int),
{
    let px = product(v.x, m.mat[0][j]);
    let py = product(v.y, m.mat[1][j]);
    let pz = product(v.z, m.mat[2][j]);
    sum(sum(sum(px, py), pz), m.mat[3][j])
}

/// Projects `input` through `matrix`, dividing by the homogeneous weight
/// unless it compares equal to zero.
///
/// A finite vector is sent to the zero vector by the zero matrix, and by the
/// matrix that is zero but for a `1.0` in row 3 and column 3.
pub fn project(input: &Vector3D, matrix: &Matrix) -> (r: Vector3D)
    ensures
        r == projected(*input, *matrix),
        finite_vector(*input) && (zero_but_corner(*matrix, ZERO) || zero_but_corner(*matrix, ONE))
            ==> r == Vector3D::zero(),
{
    let x = column_of(input, matrix, 0);
    let y = column_of(input, matrix, 1);
    let z = column_of(input, matrix, 2);
    let w = column_of(input, matrix, 3);
    proof {
        assert(is_finite(ZERO) && !is_nan(ZERO) && !is_nan(ONE));
        if zero_but_corner(*matrix, ZERO) || zero_but_corner(*matrix, ONE) {
            assert(matrix.entry(0, 0) == ZERO && matrix.entry(1, 0) == ZERO && matrix.entry(2, 0)
                == ZERO && matrix.entry(3, 0) == ZERO);
            assert(matrix.entry(0, 1) == ZERO && matrix.entry(1, 1) == ZERO && matrix.entry(2, 1)
                == ZERO && matrix.entry(3, 1) == ZERO);
            assert(matrix.entry(0, 2) == ZERO && matrix.entry(1, 2) == ZERO && matrix.entry(2, 2)
                == ZERO && matrix.entry(3, 2) == ZERO);
            assert(matrix.entry(0, 3) == ZERO && matrix.entry(1, 3) == ZERO && matrix.entry(2, 3)
                == ZERO);
        }
    }
    if is_zero(w) {
        Vector3D { x, y, z }
    } else {
        Vector3D { x: quotient(x, w), y: quotient(y, w), z: quotient(z, w) }
    }
}

/// The perspective matrix for a display of `width` by `height` pixels, a
/// field of view whose half has the tangent `tangent`, and clipping planes at
/// the distances `near` and `far`.
pub fn perspective(width: u32, height: u32, tangent: u32, near: u32, far: u32) -> (r: Matrix)
    ensures
        forall|i: int, j: int|
            0 <= i < 4 && 0 <= j < 4 ==> #[trigger] r.entry(i, j) == perspective_entry(
                i,
                j,
                width,
                height,
                tangent,
                near,
                far,
            ),
{
    let aspect = quotient(height, width);
    let scale = quotient(ONE, tangent);
    let depth = difference(far, near);
    Matrix {
        mat: [
            [product(aspect, scale), ZERO, ZERO, ZERO],
            [ZERO, scale, ZERO, ZERO],
            [ZERO, ZERO, quotient(far, depth), ONE],
            [ZERO, ZERO, quotient(product(negate(far), near), depth), ZERO],
        ],
    }
}

/// Writes the projection of `i` through `m` into `o` and hands `o` back.
/// What `o` held before plays no part.
pub fn multiply_matrix_vector<'a>(i: &'a Vector3D, o: &'a mut Vector3D, m: &'a Matrix) -> (r:
    &'a mut Vector3D)
    ensures
        *r == projected(*i, *m),
        *final(o) == *final(r),
{
    *o = project(i, m);
    o
}

/// Projection keeps no state between calls: whatever two calls of `project`
/// return for one vector and one matrix is the same, bit for bit.
pub proof fn lemma_project_is_repeatable(v: Vector3D, m: Matrix, first: Vector3D, second: Vector3D)
    requires
        call_ensures(project, (&v, &m), first),
        call_ensures(project, (&v, &m), second),
    ensures
        first == second,
{
}

} // verus!
