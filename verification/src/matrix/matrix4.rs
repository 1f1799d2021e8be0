//! The layout of a 4x4 matrix: rows, transposition and 2x2 blocks.
//!
//! The element type is left open. Nothing here computes with the elements;
//! they are only moved.

use vstd::prelude::*;

verus! {

/// A 4x4 grid, addressed row-major: `self.0[row][col]`.
#[derive(Debug, PartialEq)]
pub struct Matrix4<T>(pub [[T; 4]; 4]);

impl<T: Copy> Copy for Matrix4<T> {

}

impl<T: Copy> Clone for Matrix4<T> {
    fn clone(&self) -> (m: Self)
        ensures
            m == *self,
    {
        *self
    }
}

impl<T> core::ops::Index<usize> for Matrix4<T> {
    type Output = [T; 4];

    /// The row at `index`.
    fn index(&self, index: usize) -> (row: &[T; 4])
        ensures
            *row == self.0[index as int],
    {
        &self.0[index]
    }
}

impl<T> vstd::std_specs::core::IndexSpecImpl<usize> for Matrix4<T> {
    /// A row index must lie below 4.
    open spec fn index_req(&self, index: &usize) -> bool {
        *index < 4
    }
}

impl<T: Copy> Matrix4<T> {
    /// The grid mirrored at its diagonal: row `r` of the result is column `r`
    /// of `self`.
    pub open spec fn spec_transposed(self) -> Self {
        let m = self.0;
        Matrix4(
            [
                [m[0][0], m[1][0], m[2][0], m[3][0]],
                [m[0][1], m[1][1], m[2][1], m[3][1]],
                [m[0][2], m[1][2], m[2][2], m[3][2]],
                [m[0][3], m[1][3], m[2][3], m[3][3]],
            ],
        )
    }

    /// The number of rows, which is the number of columns.
    pub fn dimensions(&self) -> (n: usize)
        ensures
            n == 4,
    {
        4
    }

    /// Swaps `m[y][x]` with `m[x][y]` for every `x > y`.
    pub fn transpose(&mut self)
        ensures
            *final(self) == old(self).spec_transposed(),
    {
        let ghost before = self.0;
        let mut y: usize = 0;
        while y < 3
            invariant
                y <= 3,
                forall|r: int, c: int|
                    0 <= r < 4 && 0 <= c < 4 ==> #[trigger] self.0[r][c] == (if r < y || c < y {
                        before[c][r]
                    } else {
                        before[r][c]
                    }),
            decreases 3 - y,
        {
            let mut x: usize = 3;
            while x > y
                invariant
                    y < 3,
                    y <= x <= 3,
                    forall|r: int, c: int|
                        0 <= r < 4 && 0 <= c < 4 ==> #[trigger] self.0[r][c] == (if r < y || c < y
                            || (r == y && c > x) || (c == y && r > x) {
                            before[c][r]
                        } else {
                            before[r][c]
                        }),
                decreases x,
            {
                let tmp = self.0[y][x];
                self.0[y][x] = self.0[x][y];
                self.0[x][y] = tmp;
                x = x - 1;
            }
            y = y + 1;
        }
        proof {
            let after = self.0;
            let mirrored = old(self).spec_transposed().0;
            assert forall|r: int| 0 <= r < 4 implies after[r] == mirrored[r] by {
                assert(after[r] =~= mirrored[r]);
            }
            assert(after =~= mirrored);
        }
    }

    /// A transposed copy.
    pub fn transposed(&self) -> (m: Self)
        ensures
            m == self.spec_transposed(),
    {
        let mut m = *self;
        m.transpose();
        m
    }

    /// The 2x2 block in block row `block_row` and block column `block_col`,
    /// when the grid is cut into four blocks.
    pub open spec fn spec_quadrant(self, block_row: int, block_col: int) -> [[T; 2]; 2] {
        let m = self.0;
        let r = 2 * block_row;
        let c = 2 * block_col;
        [[m[r][c], m[r][c + 1]], [m[r + 1][c], m[r + 1][c + 1]]]
    }

    /// The grid whose four blocks are `upper_left`, `upper_right`,
    /// `lower_left` and `lower_right`.
    pub open spec fn spec_from_quadrants(
        upper_left: [[T; 2]; 2],
        upper_right: [[T; 2]; 2],
        lower_left: [[T; 2]; 2],
        lower_right: [[T; 2]; 2],
    ) -> Self {
        Matrix4(
            [
                [upper_left[0][0], upper_left[0][1], upper_right[0][0], upper_right[0][1]],
                [upper_left[1][0], upper_left[1][1], upper_right[1][0], upper_right[1][1]],
                [lower_left[0][0], lower_left[0][1], lower_right[0][0], lower_right[0][1]],
                [lower_left[1][0], lower_left[1][1], lower_right[1][0], lower_right[1][1]],
            ],
        )
    }

    /// Cuts out one of the four 2x2 blocks.
    pub fn quadrant(&self, block_row: usize, block_col: usize) -> (block: [[T; 2]; 2])
        requires
            block_row < 2,
            block_col < 2,
        ensures
            block == self.spec_quadrant(block_row as int, block_col as int),
    {
        let r: usize = 2 * block_row;
        let c: usize = 2 * block_col;
        let block = [[self.0[r][c], self.0[r][c + 1]], [self.0[r + 1][c], self.0[r + 1][c + 1]]];
        proof {
            let cut = self.spec_quadrant(block_row as int, block_col as int);
            assert forall|i: int| 0 <= i < 2 implies block[i] == cut[i] by {
                assert(block[i] =~= cut[i]);
            }
            assert(block =~= cut);
        }
        block
    }

    /// Puts four 2x2 blocks together.
    pub fn from_quadrants(
        upper_left: [[T; 2]; 2],
        upper_right: [[T; 2]; 2],
        lower_left: [[T; 2]; 2],
        lower_right: [[T; 2]; 2],
    ) -> (m: Self)
        ensures
            m == Self::spec_from_quadrants(upper_left, upper_right, lower_left, lower_right),
    {
        let grid = [
            [upper_left[0][0], upper_left[0][1], upper_right[0][0], upper_right[0][1]],
            [upper_left[1][0], upper_left[1][1], upper_right[1][0], upper_right[1][1]],
            [lower_left[0][0], lower_left[0][1], lower_right[0][0], lower_right[0][1]],
            [lower_left[1][0], lower_left[1][1], lower_right[1][0], lower_right[1][1]],
        ];
        proof {
            let joined = Self::spec_from_quadrants(
                upper_left,
                upper_right,
                lower_left,
                lower_right,
            ).0;
            assert forall|i: int| 0 <= i < 4 implies grid[i] == joined[i] by {
                assert(grid[i] =~= joined[i]);
            }
            assert(grid =~= joined);
        }
        Matrix4(grid)
    }

    /// Cutting a grid into its four blocks and putting them together again
    /// gives the grid back.
    pub proof fn lemma_quadrants_rejoin(self)
        ensures
            Self::spec_from_quadrants(
                self.spec_quadrant(0, 0),
                self.spec_quadrant(0, 1),
                self.spec_quadrant(1, 0),
                self.spec_quadrant(1, 1),
            ) == self,
    {
        let joined = Self::spec_from_quadrants(
            self.spec_quadrant(0, 0),
            self.spec_quadrant(0, 1),
            self.spec_quadrant(1, 0),
            self.spec_quadrant(1, 1),
        ).0;
        assert forall|i: int| 0 <= i < 4 implies joined[i] == self.0[i] by {
            assert(joined[i] =~= self.0[i]);
        }
        assert(joined =~= self.0);
    }

    /// Transposing twice gives the grid back.
    pub proof fn lemma_transpose_involution(self)
        ensures
            self.spec_transposed().spec_transposed() == self,
    {
        let twice = self.spec_transposed().spec_transposed().0;
        assert forall|r: int| 0 <= r < 4 implies twice[r] == self.0[r] by {
            assert(twice[r] =~= self.0[r]);
        }
        assert(twice =~= self.0);
    }
}

} // verus!
