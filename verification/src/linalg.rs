use vstd::prelude::*;

use crate::scalar::Scalar;

verus! {

/// Every row of `m` has length `cols`.
pub open spec fn row_len_all<S>(m: Seq<Vec<S>>, cols: int) -> bool {
    forall|i: int| 0 <= i < m.len() ==> (#[trigger] m[i])@.len() == cols
}

/// `m` is a rectangular matrix with `rows` rows and `cols` columns.
pub open spec fn is_matrix<S>(m: Seq<Vec<S>>, rows: int, cols: int) -> bool {
    m.len() == rows && row_len_all(m, cols)
}

/// `[1; v]`: a copy of `v` with the bias unit prepended.
pub fn with_bias<S: Scalar>(v: &Vec<S>) -> (r: Vec<S>)
    ensures
        r@.len() == v@.len() + 1,
        forall|j: int| 0 <= j < v@.len() ==> r@[j + 1] == #[trigger] v@[j],
{
    let mut r: Vec<S> = Vec::new();
    r.push(S::one());
    let mut i: usize = 0;
    while i < v.len()
        invariant
            i <= v@.len(),
            r@.len() == i + 1,
            forall|j: int| 0 <= j < i ==> r@[j + 1] == #[trigger] v@[j],
        decreases v@.len() - i,
    {
        r.push(v[i]);
        i += 1;
    }
    r
}

/// A `rows × cols` matrix of zeros, the starting value of every gradient
/// accumulator.
pub fn zero_matrix<S: Scalar>(rows: usize, cols: usize) -> (r: Vec<Vec<S>>)
    ensures
        is_matrix(r@, rows as int, cols as int),
{
    let mut r: Vec<Vec<S>> = Vec::new();
    let mut i: usize = 0;
    while i < rows
        invariant
            i <= rows,
            is_matrix(r@, i as int, cols as int),
        decreases rows - i,
    {
        let mut row: Vec<S> = Vec::new();
        let mut j: usize = 0;
        while j < cols
            invariant
                j <= cols,
                row@.len() == j,
            decreases cols - j,
        {
            row.push(S::zero());
            j += 1;
        }
        r.push(row);
        i += 1;
    }
    r
}

/// The matrix-vector product `m · v`.
pub fn mat_vec<S: Scalar>(m: &Vec<Vec<S>>, v: &Vec<S>) -> (r: Vec<S>)
    requires
        row_len_all(m@, v@.len() as int),
    ensures
        r@.len() == m@.len(),
{
    let mut r: Vec<S> = Vec::new();
    let mut i: usize = 0;
    while i < m.len()
        invariant
            row_len_all(m@, v@.len() as int),
            i <= m@.len(),
            r@.len() == i,
        decreases m@.len() - i,
    {
        assert(m@[i as int]@.len() == v@.len());
        let row = &m[i];
        let mut acc = S::zero();
        let mut j: usize = 0;
        while j < v.len()
            invariant
                j <= v@.len(),
                row@.len() == v@.len(),
            decreases v@.len() - j,
        {
            acc = acc.plus(row[j].times(v[j]));
            j += 1;
        }
        r.push(acc);
        i += 1;
    }
    r
}

/// The product `mᵀ · v` of the transpose of the `v.len() × cols` matrix `m`
/// with `v`.
pub fn transpose_mat_vec<S: Scalar>(m: &Vec<Vec<S>>, v: &Vec<S>, cols: usize) -> (r: Vec<S>)
    requires
        is_matrix(m@, v@.len() as int, cols as int),
    ensures
        r@.len() == cols,
{
    let mut r: Vec<S> = Vec::new();
    let mut j: usize = 0;
    while j < cols
        invariant
            is_matrix(m@, v@.len() as int, cols as int),
            j <= cols,
            r@.len() == j,
        decreases cols - j,
    {
        let mut acc = S::zero();
        let mut i: usize = 0;
        while i < v.len()
            invariant
                is_matrix(m@, v@.len() as int, cols as int),
                i <= v@.len(),
                j < cols,
            decreases v@.len() - i,
        {
            assert(m@[i as int]@.len() == cols);
            acc = acc.plus(m[i][j].times(v[i]));
            i += 1;
        }
        r.push(acc);
        j += 1;
    }
    r
}

/// The element-wise product of two vectors of the same length.
pub fn hadamard<S: Scalar>(a: &Vec<S>, b: &Vec<S>) -> (r: Vec<S>)
    requires
        a@.len() == b@.len(),
    ensures
        r@.len() == a@.len(),
{
    let mut r: Vec<S> = Vec::new();
    let mut i: usize = 0;
    while i < a.len()
        invariant
            a@.len() == b@.len(),
            i <= a@.len(),
            r@.len() == i,
        decreases a@.len() - i,
    {
        r.push(a[i].times(b[i]));
        i += 1;
    }
    r
}

} // verus!
