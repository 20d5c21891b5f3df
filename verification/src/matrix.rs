//! Four-by-four matrices for homogeneous transforms.

use crate::binary32::ONE;
use vstd::prelude::*;

verus! {

/// A 4x4 matrix of binary32 entries, each held as its encoding.
///
/// The first index is the row and the second the column. Rows 0 to 2 belong
/// to the x, y and z components of the vector that the matrix is applied to;
/// row 3 holds the constant terms.
#[derive(Debug, PartialEq, Eq)]
pub struct Matrix {
    /// The entries, row by row.
    pub mat: [[u32; 4]; 4],
}

impl Clone for Matrix {
    /// A clone has the same sixteen entries.
    fn clone(&self) -> (r: Self)
        ensures
            r == *self,
    {
        Self { mat: self.mat }
    }
}

impl Default for Matrix {
    /// The zero matrix: every entry is `+0.0`.
    fn default() -> (r: Self)
        ensures
            forall|i: int, j: int| 0 <= i < 4 && 0 <= j < 4 ==> r.entry(i, j) == 0,
    {
        Self { mat: [[0u32; 4]; 4] }
    }
}

impl Matrix {
    /// The entry in row `i` and column `j`.
    pub open spec fn entry(self, i: int, j: int) -> u32 {
        self.mat[i][j]
    }

    /// The matrix with the given entries.
    pub fn new(mat: [[u32; 4]; 4]) -> (r: Self)
        ensures
            r.mat == mat,
    {
        Self { mat }
    }

    /// The identity matrix: `1.0` on the diagonal and `+0.0` elsewhere.
    pub fn identity() -> (r: Self)
        ensures
            forall|i: int, j: int|
                0 <= i < 4 && 0 <= j < 4 ==> r.entry(i, j) == (if i == j {
                    ONE
                } else {
                    0
                }),
    {
        Self { mat: [[ONE, 0, 0, 0], [0, ONE, 0, 0], [0, 0, ONE, 0], [0, 0, 0, ONE]] }
    }
}

} // verus!
