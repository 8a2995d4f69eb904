//! Matrices of doubles with one row per individual, held by `ndarray`.
//!
//! What a matrix holds is known to the verifier only through the two names
//! [`matrix_rows`] and [`matrix_width`]; the functions of `ndarray` that the
//! library calls stand at the top of this file, each with the contract that is
//! taken on trust for it. Everything below them is proved from those contracts.
use crate::ieee::{is_nan, lt, real_le, real_lt, INFINITY};
use vstd::prelude::*;

verus! {

/// A matrix of doubles, each carried as its bit pattern.
#[verifier::external_body]
pub struct Matrix {
    cells: ndarray::Array2<u64>,
}

#[verifier::external_type_specification]
#[verifier::external_body]
pub struct ExShapeError(ndarray::ShapeError);

/// The rows of a matrix, first row first.
pub uninterp spec fn matrix_rows(m: Matrix) -> Seq<Seq<u64>>;

/// The number of columns of a matrix, which it has even without any row.
pub uninterp spec fn matrix_width(m: Matrix) -> nat;

/// What a matrix holds: its rows and its number of columns.
pub struct MatrixView {
    pub rows: Seq<Seq<u64>>,
    pub width: nat,
}

/// An axis length as `ndarray` counts it towards the size of an array: an
/// empty axis counts as one.
pub open spec fn axis_weight(len: nat) -> nat {
    if len == 0 {
        1
    } else {
        len
    }
}

/// Whether `ndarray` can hold an array of this shape: the product of its
/// axis lengths that are not zero does not exceed `isize::MAX`.
pub open spec fn shape_fits(nrows: nat, ncols: nat) -> bool {
    axis_weight(nrows) * axis_weight(ncols) <= isize::MAX
}

/// The rows into which `cells`, read row by row, fall.
pub open spec fn rows_of(cells: Seq<u64>, nrows: nat, ncols: nat) -> Seq<Seq<u64>> {
    Seq::new(nrows, |i: int| cells.subrange(i * ncols, (i + 1) * ncols))
}

/// The places of a mask that hold `true`, in increasing order.
pub open spec fn kept(keep: Seq<bool>) -> Seq<usize>
    decreases keep.len(),
{
    if keep.len() == 0 {
        Seq::empty()
    } else if keep.last() {
        kept(keep.drop_last()).push((keep.len() - 1) as usize)
    } else {
        kept(keep.drop_last())
    }
}

impl MatrixView {
    /// Every row has `width` entries, and the shape can be held.
    pub open spec fn wf(self) -> bool {
        &&& forall|i: int| 0 <= i < self.rows.len() ==> (#[trigger] self.rows[i]).len() == self.width
        &&& shape_fits(self.rows.len(), self.width)
    }

    /// The number of rows.
    pub open spec fn len(self) -> nat {
        self.rows.len()
    }

    /// The rows of `self` followed by those of `other`.
    pub open spec fn stack(self, other: MatrixView) -> MatrixView {
        MatrixView { rows: self.rows + other.rows, width: self.width }
    }

    /// The rows at `indices`, in the order of `indices`.
    pub open spec fn select(self, indices: Seq<usize>) -> MatrixView {
        MatrixView {
            rows: Seq::new(indices.len(), |k: int| self.rows[indices[k] as int]),
            width: self.width,
        }
    }

    /// The first `n` rows.
    pub open spec fn head(self, n: nat) -> MatrixView {
        MatrixView { rows: self.rows.take(n as int), width: self.width }
    }

    /// The rows whose place in `keep` holds `true`, in their order.
    pub open spec fn retain(self, keep: Seq<bool>) -> MatrixView {
        self.select(kept(keep))
    }

    /// The least number among the first `n` entries of column `j`: infinity
    /// where there is none, and NaNs are passed over.
    pub open spec fn least(self, j: int, n: nat) -> u64
        decreases n,
    {
        if n == 0 {
            INFINITY
        } else {
            let rest = self.least(j, (n - 1) as nat);
            let x = self.rows[n - 1][j];
            if real_lt(x, rest) {
                x
            } else {
                rest
            }
        }
    }

    /// The least number of each column.
    pub open spec fn minima(self) -> Seq<u64> {
        Seq::new(self.width, |j: int| self.least(j, self.len()))
    }
}

/// Whether the rows of `b` can be put below those of `a`: both have the same
/// number of columns, and the result can be held.
pub open spec fn can_stack(a: MatrixView, b: MatrixView) -> bool {
    a.width == b.width && shape_fits(a.len() + b.len(), a.width)
}

impl View for Matrix {
    type V = MatrixView;

    open spec fn view(&self) -> MatrixView {
        MatrixView { rows: matrix_rows(*self), width: matrix_width(*self) }
    }
}

/// `ndarray::Array2::from_shape_vec` with a row-major shape. It succeeds when
/// the shape can be held and has as many cells as the vector; the array then
/// holds the vector's cells row by row.
#[verifier::external_body]
pub(crate) fn array_from_shape_vec(nrows: usize, ncols: usize, cells: Vec<u64>) -> (r: Result<Matrix, ndarray::ShapeError>)
    ensures
        r is Ok == (shape_fits(nrows as nat, ncols as nat) && cells.len() == nrows * ncols),
        r matches Ok(m) ==> matrix_width(m) == ncols,
        r matches Ok(m) ==> matrix_rows(m) == rows_of(cells@, nrows as nat, ncols as nat),
{
    match ndarray::Array2::from_shape_vec((nrows, ncols), cells) {
        Ok(a) => Ok(Matrix { cells: a }),
        Err(e) => Err(e),
    }
}

/// `ndarray::ArrayBase::nrows`: the number of rows. An array that exists has a
/// shape that can be held.
#[verifier::external_body]
pub(crate) fn array_nrows(m: &Matrix) -> (n: usize)
    ensures
        n == matrix_rows(*m).len(),
        shape_fits(n as nat, matrix_width(*m)),
{
    m.cells.nrows()
}

/// `ndarray::ArrayBase::ncols`: the number of columns, which is the length of
/// every row. An array that exists has a shape that can be held.
#[verifier::external_body]
pub(crate) fn array_ncols(m: &Matrix) -> (n: usize)
    ensures
        n == matrix_width(*m),
        forall|i: int| 0 <= i < matrix_rows(*m).len() ==> (#[trigger] matrix_rows(*m)[i]).len() == n,
        shape_fits(matrix_rows(*m).len(), n as nat),
{
    m.cells.ncols()
}

/// Indexing an `ndarray::Array2` by row and column, inside its shape.
#[verifier::external_body]
pub(crate) fn array_get(m: &Matrix, i: usize, j: usize) -> (x: u64)
    requires
        i < matrix_rows(*m).len(),
        j < matrix_width(*m),
    ensures
        x == matrix_rows(*m)[i as int][j as int],
{
    m.cells[[i, j]]
}

/// `ndarray::concatenate` of two arrays along the rows. It succeeds when both
/// have the same number of columns and the result can be held; the rows of the
/// first are then followed by those of the second.
#[verifier::external_body]
pub(crate) fn array_concatenate(a: &Matrix, b: &Matrix) -> (r: Result<Matrix, ndarray::ShapeError>)
    ensures
        r is Ok == can_stack(a@, b@),
        r matches Ok(m) ==> matrix_width(m) == matrix_width(*a),
        r matches Ok(m) ==> matrix_rows(m) == matrix_rows(*a) + matrix_rows(*b),
{
    match ndarray::concatenate(ndarray::Axis(0), &[a.cells.view(), b.cells.view()]) {
        Ok(c) => Ok(Matrix { cells: c }),
        Err(e) => Err(e),
    }
}

/// `ndarray::ArrayBase::select` along the rows: the rows at `indices`, in the
/// order of `indices`. The indices lie inside the array, and there are no more
/// of them than the array has rows, so that the result can be held.
#[verifier::external_body]
pub(crate) fn array_select(m: &Matrix, indices: &Vec<usize>) -> (r: Matrix)
    requires
        indices.len() <= matrix_rows(*m).len(),
        forall|k: int| 0 <= k < indices.len() ==> indices[k] < matrix_rows(*m).len(),
    ensures
        matrix_width(r) == matrix_width(*m),
        matrix_rows(r) == Seq::new(indices@.len(), |k: int| matrix_rows(*m)[indices@[k] as int]),
{
    Matrix { cells: m.cells.select(ndarray::Axis(0), indices.as_slice()) }
}

/// The places that a mask keeps lie inside the mask, hold `true`, and increase;
/// no more places are kept than the mask has.
pub proof fn lemma_kept(keep: Seq<bool>)
    requires
        keep.len() <= usize::MAX,
    ensures
        kept(keep).len() <= keep.len(),
        forall|k: int| 0 <= k < kept(keep).len() ==> (#[trigger] kept(keep)[k]) < keep.len() && keep[kept(keep)[k] as int],
        forall|k: int, l: int| 0 <= k < l < kept(keep).len() ==> kept(keep)[k] < kept(keep)[l],
    decreases keep.len(),
{
    if keep.len() > 0 {
        let front = keep.drop_last();
        lemma_kept(front);
        assert forall|k: int| 0 <= k < kept(keep).len() implies (#[trigger] kept(keep)[k]) < keep.len()
            && keep[kept(keep)[k] as int] by {
            if k < kept(front).len() {
                assert(kept(keep)[k] == kept(front)[k]);
                assert(front[kept(front)[k] as int] == keep[kept(front)[k] as int]);
            }
        }
        assert forall|k: int, l: int| 0 <= k < l < kept(keep).len() implies kept(keep)[k] < kept(
            keep,
        )[l] by {
            assert(kept(keep)[k] == kept(front)[k]);
            if l < kept(front).len() {
                assert(kept(keep)[l] == kept(front)[l]);
            }
        }
    }
}

/// A mask keeps every place that holds `true`.
pub proof fn lemma_kept_complete(keep: Seq<bool>, i: int)
    requires
        0 <= i < keep.len(),
        keep[i],
        keep.len() <= usize::MAX,
    ensures
        kept(keep).contains(i as usize),
    decreases keep.len(),
{
    if i == keep.len() - 1 {
        assert(kept(keep).last() == i as usize);
    } else {
        lemma_kept_complete(keep.drop_last(), i);
        let k = choose|k: int| 0 <= k < kept(keep.drop_last()).len() && kept(keep.drop_last())[k] == i as usize;
        assert(kept(keep)[k] == i as usize);
    }
}

impl Matrix {
    /// The matrix with `nrows` rows and `ncols` columns whose cells, read row
    /// by row, are `cells`; `None` where the shape does not have that many
    /// cells or is too large to be held.
    pub fn from_shape_vec(nrows: usize, ncols: usize, cells: Vec<u64>) -> (r: Option<Matrix>)
        ensures
            r is Some <==> shape_fits(nrows as nat, ncols as nat) && cells.len() == nrows * ncols,
            r matches Some(m) ==> m@.wf() && m@ == (MatrixView {
                rows: rows_of(cells@, nrows as nat, ncols as nat),
                width: ncols as nat,
            }),
    {
        match array_from_shape_vec(nrows, ncols, cells) {
            Ok(m) => {
                let _ = array_ncols(&m);
                Some(m)
            },
            Err(_) => None,
        }
    }

    /// The number of rows.
    pub fn nrows(&self) -> (n: usize)
        ensures
            n == self@.len(),
            shape_fits(self@.len(), self@.width),
    {
        array_nrows(self)
    }

    /// The number of columns. Every row has that many entries.
    pub fn ncols(&self) -> (n: usize)
        ensures
            n == self@.width,
            self@.wf(),
    {
        array_ncols(self)
    }

    /// The entry in row `i` and column `j`, if the matrix has one there.
    pub fn get(&self, i: usize, j: usize) -> (x: Option<u64>)
        ensures
            x is Some <==> i < self@.len() && j < self@.width,
            x matches Some(v) ==> v == self@.rows[i as int][j as int],
    {
        if i < array_nrows(self) && j < array_ncols(self) {
            Some(array_get(self, i, j))
        } else {
            None
        }
    }

    /// Row `i`, if the matrix has that many rows.
    pub fn row(&self, i: usize) -> (r: Option<Vec<u64>>)
        ensures
            r is Some <==> i < self@.len(),
            r matches Some(v) ==> v@ == self@.rows[i as int],
    {
        if i >= array_nrows(self) {
            return None;
        }
        let width: usize = array_ncols(self);
        let mut out: Vec<u64> = Vec::new();
        let mut j: usize = 0;
        while j < width
            invariant
                j <= width,
                width == self@.width,
                i < self@.len(),
                self@.rows[i as int].len() == width,
                out@ == self@.rows[i as int].take(j as int),
            decreases width - j,
        {
            out.push(array_get(self, i, j));
            j += 1;
        }
        Some(out)
    }

    /// The rows of `self` followed by those of `other`; `None` where the two
    /// differ in their number of columns or are too large together.
    pub fn stack(&self, other: &Matrix) -> (r: Option<Matrix>)
        ensures
            r is Some <==> can_stack(self@, other@),
            r matches Some(m) ==> m@ == self@.stack(other@) && m@.wf(),
    {
        match array_concatenate(self, other) {
            Ok(m) => {
                let _ = array_ncols(&m);
                Some(m)
            },
            Err(_) => None,
        }
    }

    /// The rows at `indices`, in the order of `indices`; `None` where an index
    /// lies outside the matrix or there are more indices than rows.
    pub fn select(&self, indices: &Vec<usize>) -> (r: Option<Matrix>)
        ensures
            r is Some <==> indices.len() <= self@.len() && forall|k: int|
                0 <= k < indices.len() ==> indices[k] < self@.len(),
            r matches Some(m) ==> m@ == self@.select(indices@) && m@.wf(),
    {
        let n: usize = array_nrows(self);
        if indices.len() > n {
            return None;
        }
        let mut k: usize = 0;
        while k < indices.len()
            invariant
                k <= indices.len(),
                n == self@.len(),
                forall|l: int| 0 <= l < k ==> indices[l] < n,
            decreases indices.len() - k,
        {
            if indices[k] >= n {
                return None;
            }
            k += 1;
        }
        let m = array_select(self, indices);
        let _ = array_ncols(&m);
        Some(m)
    }

    /// The first `n` rows, or all rows where there are fewer.
    pub fn head(&self, n: usize) -> (r: Matrix)
        ensures
            r@ == self@.head(if n <= self@.len() { n as nat } else { self@.len() }),
            r@.wf(),
    {
        let rows: usize = array_nrows(self);
        let take: usize = if n <= rows { n } else { rows };
        let mut indices: Vec<usize> = Vec::new();
        let mut k: usize = 0;
        while k < take
            invariant
                k <= take,
                take <= rows,
                rows == self@.len(),
                indices.len() == k,
                forall|l: int| 0 <= l < k ==> indices[l] == l,
            decreases take - k,
        {
            indices.push(k);
            k += 1;
        }
        let m = array_select(self, &indices);
        let _ = array_ncols(&m);
        assert(m@.rows =~= self@.rows.take(take as int));
        m
    }

    /// The rows whose place in `keep` holds `true`, in their order.
    pub(crate) fn retain(&self, keep: &Vec<bool>) -> (r: Matrix)
        requires
            keep.len() == self@.len(),
        ensures
            r@ == self@.retain(keep@),
            r@.wf(),
    {
        let mut indices: Vec<usize> = Vec::new();
        let mut i: usize = 0;
        while i < keep.len()
            invariant
                i <= keep.len(),
                indices@ == kept(keep@.take(i as int)),
            decreases keep.len() - i,
        {
            assert(keep@.take(i + 1).drop_last() =~= keep@.take(i as int));
            if keep[i] {
                indices.push(i);
            }
            i += 1;
        }
        assert(keep@.take(i as int) =~= keep@);
        proof {
            lemma_kept(keep@);
        }
        let m = array_select(self, &indices);
        let _ = array_ncols(&m);
        m
    }
}

impl Matrix {
    /// The least number of column `j`, NaNs passed over; infinity where the
    /// column holds no number.
    fn column_minimum(&self, j: usize) -> (m: u64)
        requires
            j < self@.width,
        ensures
            m == self@.least(j as int, self@.len()),
    {
        let n: usize = array_nrows(self);
        let _ = array_ncols(self);
        let mut m: u64 = INFINITY;
        let mut i: usize = 0;
        while i < n
            invariant
                i <= n,
                n == self@.len(),
                j < self@.width,
                m == self@.least(j as int, i as nat),
            decreases n - i,
        {
            let x: u64 = array_get(self, i, j);
            if lt(x, m) {
                m = x;
            }
            i += 1;
        }
        m
    }

    /// The least number of each column, NaNs passed over.
    pub fn column_minima(&self) -> (r: Vec<u64>)
        ensures
            r@ == self@.minima(),
    {
        let width: usize = array_ncols(self);
        let mut out: Vec<u64> = Vec::new();
        let mut j: usize = 0;
        while j < width
            invariant
                j <= width,
                width == self@.width,
                out.len() == j,
                forall|k: int| 0 <= k < j ==> out[k] == self@.least(k, self@.len()),
            decreases width - j,
        {
            out.push(self.column_minimum(j));
            j += 1;
        }
        assert(out@ =~= self@.minima());
        out
    }
}

/// The least number of a column is at most every number among its entries,
/// and it is infinity or one of the entries.
pub proof fn lemma_least_is_a_minimum(m: MatrixView, j: int, n: nat)
    requires
        n <= m.len(),
    ensures
        !is_nan(m.least(j, n)),
        forall|i: int| 0 <= i < n && !is_nan(#[trigger] m.rows[i][j]) ==> real_le(m.least(j, n), m.rows[i][j]),
        m.least(j, n) == INFINITY || exists|i: int| 0 <= i < n && m.least(j, n) == #[trigger] m.rows[i][j],
    decreases n,
{
    if n > 0 {
        lemma_least_is_a_minimum(m, j, (n - 1) as nat);
        let rest = m.least(j, (n - 1) as nat);
        if rest != INFINITY && m.least(j, n) == rest {
            let i = choose|i: int| 0 <= i < n - 1 && rest == #[trigger] m.rows[i][j];
            assert(m.least(j, n) == m.rows[i][j]);
        } else if m.least(j, n) != rest {
            assert(m.least(j, n) == m.rows[n - 1][j]);
        }
    }
}

impl Clone for Matrix {
    /// A matrix with the same rows.
    fn clone(&self) -> (r: Matrix)
        ensures
            r@ == self@,
    {
        let n: usize = array_nrows(self);
        let m = self.head(n);
        assert(self@.rows.take(n as int) =~= self@.rows);
        m
    }
}

} // verus!
