//! Arithmetic of row-major indices: an index `i` into rows of length `w`
//! splits into the row `i / w` and the column `i % w`, and back.

use vstd::prelude::*;

verus! {

/// Every non-negative index is its row times the row length plus its column.
pub proof fn lemma_split(i: int, w: int)
    requires
        0 <= i,
        0 < w,
    ensures
        i == (i / w) * w + i % w,
        0 <= i % w < w,
        0 <= i / w,
{
    vstd::arithmetic::div_mod::lemma_fundamental_div_mod(i, w);
    vstd::arithmetic::div_mod::lemma_div_pos_is_pos(i, w);
    assert(w * (i / w) == (i / w) * w) by (nonlinear_arith);
}

/// A row and a column within the row give back themselves when the index
/// they form is split again.
pub proof fn lemma_join(row: int, col: int, w: int)
    requires
        0 <= col < w,
    ensures
        (row * w + col) / w == row,
        (row * w + col) % w == col,
{
    vstd::arithmetic::div_mod::lemma_fundamental_div_mod_converse(row * w + col, w, row, col);
}

/// An index below `w * n` lies in one of the first `n` rows.
pub proof fn lemma_row_bound(i: int, w: int, n: int)
    requires
        0 < w,
        0 <= i < w * n,
    ensures
        0 <= i / w < n,
{
    lemma_split(i, w);
    assert(i / w < n) by (nonlinear_arith)
        requires
            0 < w,
            i < w * n,
            i == (i / w) * w + i % w,
            0 <= i % w,
    ;
}

/// A column below `w` in one of the first `n` rows has an index below `w * n`.
pub proof fn lemma_index_bound(row: int, col: int, w: int, n: int)
    requires
        0 <= col < w,
        0 <= row < n,
    ensures
        0 <= row * w + col < w * n,
{
    assert(0 <= row * w + col < w * n) by (nonlinear_arith)
        requires
            0 <= col < w,
            0 <= row < n,
    ;
}

} // verus!
