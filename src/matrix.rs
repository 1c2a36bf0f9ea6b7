use vstd::prelude::*;
use crate::error::MLError;
use crate::params::copy_values;

verus! {

/// A dense two-dimensional array of values, stored row by row. Every row has
/// the same number of columns.
pub struct Matrix<T> {
    rows: Vec<Vec<T>>,
    n_cols: usize,
}

/// Whether every row of `rows` has exactly `n_cols` entries.
pub open spec fn rectangular<T>(rows: Seq<Seq<T>>, n_cols: nat) -> bool {
    forall|i: int| 0 <= i < rows.len() ==> #[trigger] rows[i].len() == n_cols
}

/// Whether `rows` is a table of `n_rows` rows of `n_cols` entries each.
pub open spec fn has_shape<T>(rows: Seq<Seq<T>>, n_rows: nat, n_cols: nat) -> bool {
    rows.len() == n_rows && rectangular(rows, n_cols)
}

impl<T> Matrix<T> {
    /// The rows of the matrix, as sequences of values.
    pub closed spec fn view(&self) -> Seq<Seq<T>> {
        self.rows@.map_values(|r: Vec<T>| r@)
    }

    /// The number of columns, which is meaningful also for a matrix without rows.
    pub closed spec fn cols(&self) -> nat {
        self.n_cols as nat
    }

    pub closed spec fn wf(&self) -> bool {
        rectangular(self.view(), self.n_cols as nat)
    }

    /// The matrix made of `rows`, each of which must have `n_cols` entries.
    pub fn from_rows(rows: Vec<Vec<T>>, n_cols: usize) -> (r: Result<Self, MLError>)
        ensures
            r is Ok <==> rectangular(rows@.map_values(|v: Vec<T>| v@), n_cols as nat),
            r is Err ==> r == Err::<Self, MLError>(MLError::DimensionMismatch),
            r matches Ok(m) ==> m.wf() && m@ == rows@.map_values(|v: Vec<T>| v@) && m.cols()
                == n_cols,
    {
        let ghost model = rows@.map_values(|v: Vec<T>| v@);
        let mut i: usize = 0;
        while i < rows.len()
            invariant
                i <= rows.len(),
                model == rows@.map_values(|v: Vec<T>| v@),
                forall|j: int| 0 <= j < i ==> #[trigger] model[j].len() == n_cols,
            decreases rows.len() - i,
        {
            if rows[i].len() != n_cols {
                assert(model[i as int].len() != n_cols);
                return Err(MLError::DimensionMismatch);
            }
            i += 1;
        }
        Ok(Matrix { rows, n_cols })
    }

    /// The number of rows.
    pub fn n_rows(&self) -> (r: usize)
        ensures
            r == self@.len(),
    {
        self.rows.len()
    }

    /// The number of columns.
    pub fn n_cols(&self) -> (r: usize)
        ensures
            r == self.cols(),
    {
        self.n_cols
    }

    /// Whether the matrix has `n_rows` rows of `n_cols` entries each.
    pub fn is_shaped(&self, n_rows: usize, n_cols: usize) -> (r: bool)
        requires
            self.wf(),
        ensures
            r == has_shape(self@, n_rows as nat, n_cols as nat),
    {
        if self.rows.len() != n_rows {
            false
        } else if n_rows == 0 || self.n_cols == n_cols {
            true
        } else {
            assert(self@[0].len() == self.n_cols);
            false
        }
    }

    /// The row at index `i`.
    pub fn row(&self, i: usize) -> (r: &Vec<T>)
        requires
            i < self@.len(),
        ensures
            r@ == self@[i as int],
    {
        &self.rows[i]
    }
}

impl<T: Copy> Matrix<T> {
    /// The matrix of `n_rows` rows and `n_cols` columns whose entries all are `value`.
    pub fn filled(n_rows: usize, n_cols: usize, value: T) -> (r: Self)
        ensures
            r.wf(),
            r.cols() == n_cols,
            has_shape(r@, n_rows as nat, n_cols as nat),
            forall|i: int, j: int| 0 <= i < n_rows && 0 <= j < n_cols ==> #[trigger] r@[i][j] == value,
    {
        let mut line: Vec<T> = Vec::with_capacity(n_cols);
        let mut j: usize = 0;
        while j < n_cols
            invariant
                j <= n_cols,
                line@.len() == j,
                forall|k: int| 0 <= k < j ==> #[trigger] line@[k] == value,
            decreases n_cols - j,
        {
            line.push(value);
            j += 1;
        }
        let mut rows: Vec<Vec<T>> = Vec::with_capacity(n_rows);
        let mut i: usize = 0;
        while i < n_rows
            invariant
                i <= n_rows,
                rows@.len() == i,
                line@.len() == n_cols,
                forall|k: int| 0 <= k < n_cols ==> #[trigger] line@[k] == value,
                forall|k: int| 0 <= k < i ==> #[trigger] rows@[k]@ == line@,
            decreases n_rows - i,
        {
            rows.push(copy_values(&line));
            i += 1;
        }
        let r = Matrix { rows, n_cols };
        assert(r.wf());
        r
    }

    /// The entry in row `i` and column `j`.
    pub fn get(&self, i: usize, j: usize) -> (r: T)
        requires
            self.wf(),
            i < self@.len(),
            j < self.cols(),
        ensures
            r == self@[i as int][j as int],
    {
        assert(self@[i as int].len() == self.cols());
        self.rows[i][j]
    }

    /// An independent copy of the matrix.
    pub fn duplicate(&self) -> (r: Self)
        requires
            self.wf(),
        ensures
            r.wf(),
            r@ == self@,
            r.cols() == self.cols(),
    {
        let mut rows: Vec<Vec<T>> = Vec::with_capacity(self.rows.len());
        let mut i: usize = 0;
        while i < self.rows.len()
            invariant
                i <= self.rows.len(),
                rows@.len() == i,
                forall|k: int| 0 <= k < i ==> #[trigger] rows@[k]@ == self.rows@[k]@,
            decreases self.rows.len() - i,
        {
            rows.push(copy_values(&self.rows[i]));
            i += 1;
        }
        let r = Matrix { rows, n_cols: self.n_cols };
        assert(r@ =~= self@);
        r
    }
}

} // verus!
