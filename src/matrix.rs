use vstd::prelude::*;

use crate::element::Numeric;
use crate::error::LinalgError;
use crate::vector::{
    add_seq, add_vec, add_vec_in_place, dot_prefix, dot_seq, dot_vec, left_scale_seq, left_scale_vec,
    scale_seq, scale_vec, scale_vec_in_place, Vector,
};

verus! {

/// The element sequences of a sequence of rows.
pub open spec fn rows_view<T>(rows: Seq<Vec<T>>) -> Seq<Seq<T>> {
    rows.map_values(|row: Vec<T>| row@)
}

/// Every row has as many elements as the first one.
pub open spec fn is_rectangular<T>(rows: Seq<Seq<T>>) -> bool {
    forall|i: int| 0 <= i < rows.len() ==> #[trigger] rows[i].len() == rows[0].len()
}

/// `grid` has `rows` rows of `cols` elements each.
pub open spec fn has_shape<T>(grid: Seq<Seq<T>>, rows: nat, cols: nat) -> bool {
    &&& grid.len() == rows
    &&& forall|i: int| 0 <= i < rows ==> #[trigger] grid[i].len() == cols
}

/// `funct` may be called on every element of `src`.
pub open spec fn grid_lambda_ready<T, F: Fn(&T) -> T>(src: Seq<Seq<T>>, funct: F) -> bool {
    forall|i: int, j: int|
        0 <= i < src.len() && 0 <= j < src[i].len() ==> #[trigger] funct.requires((&src[i][j],))
}

/// `dst` has the shape of `src` and holds, at each position, a result of
/// `funct` on the element of `src` there.
pub open spec fn grid_lambda_of<T, F: Fn(&T) -> T>(
    src: Seq<Seq<T>>,
    funct: F,
    dst: Seq<Seq<T>>,
) -> bool {
    &&& dst.len() == src.len()
    &&& forall|i: int| 0 <= i < src.len() ==> #[trigger] dst[i].len() == src[i].len()
    &&& forall|i: int, j: int|
        0 <= i < src.len() && 0 <= j < src[i].len() ==> funct.ensures(
            (&src[i][j],),
            #[trigger] dst[i][j],
        )
}

/// `funct` may be called on every position of a `rows` by `cols` grid.
pub open spec fn grid_lambda_index_ready<T, F: Fn(usize, usize) -> T>(
    rows: nat,
    cols: nat,
    funct: F,
) -> bool {
    forall|i: usize, j: usize| 0 <= i < rows && 0 <= j < cols ==> #[trigger] funct.requires((i, j))
}

/// `dst` is a `rows` by `cols` grid that holds, at each position, a result
/// of `funct` on that position.
pub open spec fn grid_lambda_index_of<T, F: Fn(usize, usize) -> T>(
    rows: nat,
    cols: nat,
    funct: F,
    dst: Seq<Seq<T>>,
) -> bool {
    &&& has_shape(dst, rows, cols)
    &&& forall|i: usize, j: usize|
        0 <= i < rows && 0 <= j < cols ==> funct.ensures((i, j), #[trigger] dst[i as int][j as int])
}

/// `funct` may be called on every position of `src` with its element.
pub open spec fn grid_lambda_enumerate_ready<T, F: Fn(usize, usize, &T) -> T>(
    src: Seq<Seq<T>>,
    funct: F,
) -> bool {
    forall|i: usize, j: usize|
        0 <= i < src.len() && 0 <= j < src[i as int].len() ==> #[trigger] funct.requires(
            (i, j, &src[i as int][j as int]),
        )
}

/// `dst` has the shape of `src` and holds, at each position, a result of
/// `funct` on that position and the element of `src` there.
pub open spec fn grid_lambda_enumerate_of<T, F: Fn(usize, usize, &T) -> T>(
    src: Seq<Seq<T>>,
    funct: F,
    dst: Seq<Seq<T>>,
) -> bool {
    &&& dst.len() == src.len()
    &&& forall|i: int| 0 <= i < src.len() ==> #[trigger] dst[i].len() == src[i].len()
    &&& forall|i: usize, j: usize|
        0 <= i < src.len() && 0 <= j < src[i as int].len() ==> funct.ensures(
            (i, j, &src[i as int][j as int]),
            #[trigger] dst[i as int][j as int],
        )
}

/// `funct` may be called on every pair of elements at a common position.
pub open spec fn grid_map_ready<T, F: Fn(&T, &T) -> T>(
    a: Seq<Seq<T>>,
    b: Seq<Seq<T>>,
    funct: F,
) -> bool {
    forall|i: int, j: int|
        0 <= i < a.len() && 0 <= j < a[i].len() ==> #[trigger] funct.requires((&a[i][j], &b[i][j]))
}

/// `dst` has the shape of `a` and holds, at each position, a result of
/// `funct` on the elements of `a` and `b` there.
pub open spec fn grid_map_of<T, F: Fn(&T, &T) -> T>(
    a: Seq<Seq<T>>,
    b: Seq<Seq<T>>,
    funct: F,
    dst: Seq<Seq<T>>,
) -> bool {
    &&& dst.len() == a.len()
    &&& forall|i: int| 0 <= i < a.len() ==> #[trigger] dst[i].len() == a[i].len()
    &&& forall|i: int, j: int|
        0 <= i < a.len() && 0 <= j < a[i].len() ==> funct.ensures(
            (&a[i][j], &b[i][j]),
            #[trigger] dst[i][j],
        )
}

/// `funct` may be called on every position with the elements there.
pub open spec fn grid_map_enumerate_ready<T, F: Fn(usize, usize, &T, &T) -> T>(
    a: Seq<Seq<T>>,
    b: Seq<Seq<T>>,
    funct: F,
) -> bool {
    forall|i: usize, j: usize|
        0 <= i < a.len() && 0 <= j < a[i as int].len() ==> #[trigger] funct.requires(
            (i, j, &a[i as int][j as int], &b[i as int][j as int]),
        )
}

/// `dst` has the shape of `a` and holds, at each position, a result of
/// `funct` on that position and the elements of `a` and `b` there.
pub open spec fn grid_map_enumerate_of<T, F: Fn(usize, usize, &T, &T) -> T>(
    a: Seq<Seq<T>>,
    b: Seq<Seq<T>>,
    funct: F,
    dst: Seq<Seq<T>>,
) -> bool {
    &&& dst.len() == a.len()
    &&& forall|i: int| 0 <= i < a.len() ==> #[trigger] dst[i].len() == a[i].len()
    &&& forall|i: usize, j: usize|
        0 <= i < a.len() && 0 <= j < a[i as int].len() ==> funct.ensures(
            (i, j, &a[i as int][j as int], &b[i as int][j as int]),
            #[trigger] dst[i as int][j as int],
        )
}

/// The elements of `a + b`, position by position.
pub open spec fn add_grid<T: Numeric>(a: Seq<Seq<T>>, b: Seq<Seq<T>>) -> Seq<Seq<T>> {
    Seq::new(a.len(), |i: int| add_seq(a[i], b[i]))
}

/// The elements of `a` each multiplied by `s` on the right.
pub open spec fn scale_grid<T: Numeric>(a: Seq<Seq<T>>, s: T) -> Seq<Seq<T>> {
    Seq::new(a.len(), |i: int| scale_seq(a[i], s))
}

/// `s` multiplied on the left by each element of `a`.
pub open spec fn left_scale_grid<T: Numeric>(s: T, a: Seq<Seq<T>>) -> Seq<Seq<T>> {
    Seq::new(a.len(), |i: int| left_scale_seq(s, a[i]))
}

/// Column `j` of `a`.
pub open spec fn column<T>(a: Seq<Seq<T>>, j: int) -> Seq<T> {
    Seq::new(a.len(), |k: int| a[k][j])
}

/// The product of the matrix `a` and the column vector `v`: the dot product
/// of each row of `a` with `v`.
pub open spec fn mul_vec_grid<T: Numeric>(a: Seq<Seq<T>>, v: Seq<T>) -> Seq<T> {
    Seq::new(a.len(), |i: int| dot_seq(a[i], v))
}

/// The row vector `row` times the matrix `b` of `cols` columns: the dot
/// product of `row` with each column of `b`.
pub open spec fn row_times_grid<T: Numeric>(row: Seq<T>, b: Seq<Seq<T>>, cols: nat) -> Seq<T> {
    Seq::new(cols, |j: int| dot_seq(row, column(b, j)))
}

/// The product of the matrices `a` and `b`, where `b` has `cols` columns:
/// the dot product of each row of `a` with each column of `b`.
pub open spec fn mul_grid<T: Numeric>(a: Seq<Seq<T>>, b: Seq<Seq<T>>, cols: nat) -> Seq<Seq<T>> {
    Seq::new(a.len(), |i: int| row_times_grid(a[i], b, cols))
}

/// A rectangular grid of elements, stored row by row.
///
/// A matrix built from no rows at all has zero rows and zero columns.
#[derive(Debug, PartialEq, Eq)]
pub struct Matrix<T> {
    rows: usize,
    cols: usize,
    matrix: Vec<Vec<T>>,
}

impl<T> View for Matrix<T> {
    type V = Seq<Seq<T>>;

    closed spec fn view(&self) -> Seq<Seq<T>> {
        rows_view(self.matrix@)
    }
}

impl<T: Clone> Clone for Matrix<T> {
    fn clone(&self) -> (r: Matrix<T>) {
        proof {
            use_type_invariant(self);
        }
        let mut out: Vec<Vec<T>> = Vec::with_capacity(self.rows);
        for i in 0..self.rows
            invariant
                self.well_formed(),
                out@.len() == i,
                forall|k: int| 0 <= k < i ==> #[trigger] out@[k]@.len() == self.cols,
        {
            let row = self.matrix[i].clone();
            assert(row@.len() == self@[i as int].len());
            out.push(row);
        }
        Matrix { rows: self.rows, cols: self.cols, matrix: out }
    }
}

impl<T> Matrix<T> {
    #[verifier::type_invariant]
    closed spec fn well_formed(&self) -> bool {
        &&& self.matrix@.len() == self.rows
        &&& forall|i: int| 0 <= i < self.rows ==> #[trigger] self.matrix@[i]@.len() == self.cols
    }

    /// The number of rows.
    pub closed spec fn num_rows(&self) -> nat {
        self.rows as nat
    }

    /// The number of columns.
    pub closed spec fn num_cols(&self) -> nat {
        self.cols as nat
    }

    /// Builds a matrix from its rows, which must all be of the same length.
    pub fn from_rows(params: Vec<Vec<T>>) -> (r: Result<Matrix<T>, LinalgError>)
        ensures
            match r {
                Ok(m) => {
                    &&& is_rectangular(rows_view(params@))
                    &&& m@ == rows_view(params@)
                    &&& m.num_rows() == params@.len()
                    &&& m.num_cols() == if params@.len() == 0 { 0 } else { params@[0]@.len() }
                },
                Err(e) => {
                    &&& !is_rectangular(rows_view(params@))
                    &&& e == LinalgError::NonRectangularInput
                },
            },
    {
        let rows = params.len();
        if rows == 0 {
            assert(rows_view(params@) =~= Seq::<Seq<T>>::empty());
            return Ok(Matrix { rows: 0, cols: 0, matrix: params });
        }
        let cols = params[0].len();
        for row in 1..rows
            invariant
                rows == params@.len(),
                cols == params@[0]@.len(),
                forall|i: int| 0 <= i < row ==> #[trigger] params@[i]@.len() == cols,
        {
            if params[row].len() != cols {
                assert(rows_view(params@)[row as int].len() != rows_view(params@)[0].len());
                return Err(LinalgError::NonRectangularInput);
            }
        }
        assert(is_rectangular(rows_view(params@)));
        Ok(Matrix { rows, cols, matrix: params })
    }

    /// A matrix of the single row `row`.
    pub(crate) fn from_row(row: Vec<T>) -> (r: Matrix<T>)
        ensures
            r.num_rows() == 1,
            r.num_cols() == row@.len(),
            r@ == seq![row@],
    {
        let cols = row.len();
        let mut matrix: Vec<Vec<T>> = Vec::with_capacity(1);
        matrix.push(row);
        assert(rows_view(matrix@) =~= seq![matrix@[0]@]);
        Matrix { rows: 1, cols, matrix }
    }

    /// A matrix of one column, from rows of one element each.
    pub(crate) fn from_column(rows: Vec<Vec<T>>) -> (r: Matrix<T>)
        requires
            forall|i: int| 0 <= i < rows@.len() ==> #[trigger] rows@[i]@.len() == 1,
        ensures
            r.num_rows() == rows@.len(),
            r.num_cols() == 1,
            r@ == rows_view(rows@),
    {
        Matrix { rows: rows.len(), cols: 1, matrix: rows }
    }

    /// Returns the number of rows.
    pub fn rows(&self) -> (r: usize)
        ensures
            r == self.num_rows(),
    {
        self.rows
    }

    /// Returns the number of columns.
    pub fn cols(&self) -> (r: usize)
        ensures
            r == self.num_cols(),
    {
        self.cols
    }

    /// Borrows the rows.
    pub fn elements(&self) -> (r: &Vec<Vec<T>>)
        ensures
            rows_view(r@) == self@,
    {
        &self.matrix
    }

    /// Unwraps the rows.
    pub fn into_inner(self) -> (r: Vec<Vec<T>>)
        ensures
            rows_view(r@) == self@,
    {
        self.matrix
    }

    /// Applies `funct` to each element and collects the results in a new
    /// matrix of the same shape.
    pub fn lambda<F: Fn(&T) -> T>(&self, funct: F) -> (r: Matrix<T>)
        requires
            grid_lambda_ready(self@, funct),
        ensures
            r.num_rows() == self.num_rows(),
            r.num_cols() == self.num_cols(),
            grid_lambda_of(self@, funct, r@),
    {
        proof {
            use_type_invariant(self);
        }
        let mut out: Vec<Vec<T>> = Vec::with_capacity(self.rows);
        for i in 0..self.rows
            invariant
                self.well_formed(),
                grid_lambda_ready(self@, funct),
                out@.len() == i,
                forall|k: int| 0 <= k < i ==> #[trigger] out@[k]@.len() == self.cols,
                forall|k: int, j: int|
                    0 <= k < i && 0 <= j < self.cols ==> funct.ensures(
                        (&self@[k][j],),
                        #[trigger] out@[k]@[j],
                    ),
        {
            let src_row = &self.matrix[i];
            let mut row: Vec<T> = Vec::with_capacity(self.cols);
            for j in 0..self.cols
                invariant
                    self.well_formed(),
                    grid_lambda_ready(self@, funct),
                    0 <= i < self.rows,
                    src_row@ == self@[i as int],
                    row@.len() == j,
                    forall|l: int| 0 <= l < j ==> funct.ensures((&self@[i as int][l],), #[trigger] row@[l]),
            {
                row.push(funct(&src_row[j]));
            }
            out.push(row);
        }
        let r = Matrix { rows: self.rows, cols: self.cols, matrix: out };
        assert(grid_lambda_of(self@, funct, r@));
        r
    }

    /// Replaces each element with the result of `funct` on it, in place, and
    /// returns the same matrix.
    pub fn lambda_mut<F: Fn(&T) -> T>(&mut self, funct: F) -> (r: &mut Matrix<T>)
        requires
            grid_lambda_ready(old(self)@, funct),
        ensures
            r.num_rows() == old(self).num_rows(),
            r.num_cols() == old(self).num_cols(),
            grid_lambda_of(old(self)@, funct, r@),
            *final(self) == *final(r),
    {
        proof {
            use_type_invariant(&*self);
        }
        let ghost src = self@;
        let rows = self.rows;
        let cols = self.cols;
        let mut taken = Matrix { rows: 0, cols: 0, matrix: Vec::new() };
        std::mem::swap(self, &mut taken);
        let Matrix { rows, cols, matrix: mut grid } = taken;
        assert(rows_view(grid@) == src);
        assert(forall|k: int| 0 <= k < rows ==> #[trigger] grid@[k]@ == src[k]);
        for i in 0..rows
            invariant
                has_shape(src, rows as nat, cols as nat),
                grid_lambda_ready(src, funct),
                grid@.len() == rows,
                forall|k: int| 0 <= k < rows ==> #[trigger] grid@[k]@.len() == cols,
                forall|k: int| i <= k < rows ==> #[trigger] grid@[k]@ == src[k],
                forall|k: int, j: int|
                    0 <= k < i && 0 <= j < cols ==> funct.ensures(
                        (&src[k][j],),
                        #[trigger] grid@[k]@[j],
                    ),
        {
            for j in 0..cols
                invariant
                    has_shape(src, rows as nat, cols as nat),
                    grid_lambda_ready(src, funct),
                    0 <= i < rows,
                    grid@.len() == rows,
                    forall|k: int| 0 <= k < rows ==> #[trigger] grid@[k]@.len() == cols,
                    forall|k: int| i < k < rows ==> #[trigger] grid@[k]@ == src[k],
                    forall|l: int| j <= l < cols ==> #[trigger] grid@[i as int]@[l] == src[i as int][l],
                    forall|k: int, l: int|
                        0 <= k < i && 0 <= l < cols ==> funct.ensures(
                            (&src[k][l],),
                            #[trigger] grid@[k]@[l],
                        ),
                    forall|l: int| 0 <= l < j ==> funct.ensures((&src[i as int][l],), #[trigger] grid@[i as int]@[l]),
            {
                let v = funct(&grid[i][j]);
                grid[i][j] = v;
            }
        }
        *self = Matrix { rows, cols, matrix: grid };
        assert(grid_lambda_of(src, funct, self@));
        self
    }

    /// Builds a matrix of the same shape whose element at each position is
    /// the result of `funct` on that position (row, then column).
    pub fn lambda_index<F: Fn(usize, usize) -> T>(&self, funct: F) -> (r: Matrix<T>)
        requires
            grid_lambda_index_ready(self.num_rows(), self.num_cols(), funct),
        ensures
            r.num_rows() == self.num_rows(),
            r.num_cols() == self.num_cols(),
            grid_lambda_index_of(self.num_rows(), self.num_cols(), funct, r@),
    {
        proof {
            use_type_invariant(self);
        }
        let rows = self.rows;
        let cols = self.cols;
        let mut out: Vec<Vec<T>> = Vec::with_capacity(rows);
        for i in 0..rows
            invariant
                grid_lambda_index_ready(rows as nat, cols as nat, funct),
                out@.len() == i,
                forall|k: int| 0 <= k < i ==> #[trigger] out@[k]@.len() == cols,
                forall|k: usize, l: usize|
                    0 <= k < i && 0 <= l < cols ==> funct.ensures(
                        (k, l),
                        #[trigger] out@[k as int]@[l as int],
                    ),
        {
            let mut row: Vec<T> = Vec::with_capacity(cols);
            for j in 0..cols
                invariant
                    grid_lambda_index_ready(rows as nat, cols as nat, funct),
                    0 <= i < rows,
                    row@.len() == j,
                    forall|l: usize| 0 <= l < j ==> funct.ensures((i, l), #[trigger] row@[l as int]),
            {
                row.push(funct(i, j));
            }
            out.push(row);
        }
        let r = Matrix { rows, cols, matrix: out };
        assert(grid_lambda_index_of(rows as nat, cols as nat, funct, r@));
        r
    }

    /// Replaces the element at each position with the result of `funct` on
    /// that position (row, then column), in place, and returns the same
    /// matrix.
    pub fn lambda_index_mut<F: Fn(usize, usize) -> T>(&mut self, funct: F) -> (r: &mut Matrix<T>)
        requires
            grid_lambda_index_ready(old(self).num_rows(), old(self).num_cols(), funct),
        ensures
            r.num_rows() == old(self).num_rows(),
            r.num_cols() == old(self).num_cols(),
            grid_lambda_index_of(old(self).num_rows(), old(self).num_cols(), funct, r@),
            *final(self) == *final(r),
    {
        proof {
            use_type_invariant(&*self);
        }
        let mut taken = Matrix { rows: 0, cols: 0, matrix: Vec::new() };
        std::mem::swap(self, &mut taken);
        let Matrix { rows, cols, matrix: mut grid } = taken;
        for i in 0..rows
            invariant
                grid_lambda_index_ready(rows as nat, cols as nat, funct),
                grid@.len() == rows,
                forall|k: int| 0 <= k < rows ==> #[trigger] grid@[k]@.len() == cols,
                forall|k: usize, l: usize|
                    0 <= k < i && 0 <= l < cols ==> funct.ensures(
                        (k, l),
                        #[trigger] grid@[k as int]@[l as int],
                    ),
        {
            for j in 0..cols
                invariant
                    grid_lambda_index_ready(rows as nat, cols as nat, funct),
                    0 <= i < rows,
                    grid@.len() == rows,
                    forall|k: int| 0 <= k < rows ==> #[trigger] grid@[k]@.len() == cols,
                    forall|k: usize, l: usize|
                        0 <= k < i && 0 <= l < cols ==> funct.ensures(
                            (k, l),
                            #[trigger] grid@[k as int]@[l as int],
                        ),
                    forall|l: usize| 0 <= l < j ==> funct.ensures((i, l), #[trigger] grid@[i as int]@[l as int]),
            {
                let v = funct(i, j);
                grid[i][j] = v;
            }
        }
        *self = Matrix { rows, cols, matrix: grid };
        assert(grid_lambda_index_of(rows as nat, cols as nat, funct, self@));
        self
    }

    /// Applies `funct` to each position (row, then column) and its element,
    /// and collects the results in a new matrix of the same shape.
    pub fn lambda_enumerate<F: Fn(usize, usize, &T) -> T>(&self, funct: F) -> (r: Matrix<T>)
        requires
            grid_lambda_enumerate_ready(self@, funct),
        ensures
            r.num_rows() == self.num_rows(),
            r.num_cols() == self.num_cols(),
            grid_lambda_enumerate_of(self@, funct, r@),
    {
        proof {
            use_type_invariant(self);
        }
        let mut out: Vec<Vec<T>> = Vec::with_capacity(self.rows);
        for i in 0..self.rows
            invariant
                self.well_formed(),
                grid_lambda_enumerate_ready(self@, funct),
                out@.len() == i,
                forall|k: int| 0 <= k < i ==> #[trigger] out@[k]@.len() == self.cols,
                forall|k: usize, l: usize|
                    0 <= k < i && 0 <= l < self.cols ==> funct.ensures(
                        (k, l, &self@[k as int][l as int]),
                        #[trigger] out@[k as int]@[l as int],
                    ),
        {
            let src_row = &self.matrix[i];
            let mut row: Vec<T> = Vec::with_capacity(self.cols);
            for j in 0..self.cols
                invariant
                    self.well_formed(),
                    grid_lambda_enumerate_ready(self@, funct),
                    0 <= i < self.rows,
                    src_row@ == self@[i as int],
                    row@.len() == j,
                    forall|l: usize|
                        0 <= l < j ==> funct.ensures(
                            (i, l, &self@[i as int][l as int]),
                            #[trigger] row@[l as int],
                        ),
            {
                row.push(funct(i, j, &src_row[j]));
            }
            out.push(row);
        }
        let r = Matrix { rows: self.rows, cols: self.cols, matrix: out };
        assert(grid_lambda_enumerate_of(self@, funct, r@));
        r
    }

    /// Replaces each element with the result of `funct` on its position (row,
    /// then column) and itself, in place, and returns the same matrix.
    pub fn lambda_enumerate_mut<F: Fn(usize, usize, &T) -> T>(&mut self, funct: F) -> (r:
        &mut Matrix<T>)
        requires
            grid_lambda_enumerate_ready(old(self)@, funct),
        ensures
            r.num_rows() == old(self).num_rows(),
            r.num_cols() == old(self).num_cols(),
            grid_lambda_enumerate_of(old(self)@, funct, r@),
            *final(self) == *final(r),
    {
        proof {
            use_type_invariant(&*self);
        }
        let ghost src = self@;
        let mut taken = Matrix { rows: 0, cols: 0, matrix: Vec::new() };
        std::mem::swap(self, &mut taken);
        let Matrix { rows, cols, matrix: mut grid } = taken;
        assert(forall|k: int| 0 <= k < rows ==> #[trigger] grid@[k]@ == src[k]);
        for i in 0..rows
            invariant
                has_shape(src, rows as nat, cols as nat),
                grid_lambda_enumerate_ready(src, funct),
                grid@.len() == rows,
                forall|k: int| 0 <= k < rows ==> #[trigger] grid@[k]@.len() == cols,
                forall|k: int| i <= k < rows ==> #[trigger] grid@[k]@ == src[k],
                forall|k: usize, l: usize|
                    0 <= k < i && 0 <= l < cols ==> funct.ensures(
                        (k, l, &src[k as int][l as int]),
                        #[trigger] grid@[k as int]@[l as int],
                    ),
        {
            for j in 0..cols
                invariant
                    has_shape(src, rows as nat, cols as nat),
                    grid_lambda_enumerate_ready(src, funct),
                    0 <= i < rows,
                    grid@.len() == rows,
                    forall|k: int| 0 <= k < rows ==> #[trigger] grid@[k]@.len() == cols,
                    forall|k: int| i < k < rows ==> #[trigger] grid@[k]@ == src[k],
                    forall|l: int| j <= l < cols ==> #[trigger] grid@[i as int]@[l] == src[i as int][l],
                    forall|k: usize, l: usize|
                        0 <= k < i && 0 <= l < cols ==> funct.ensures(
                            (k, l, &src[k as int][l as int]),
                            #[trigger] grid@[k as int]@[l as int],
                        ),
                    forall|l: usize|
                        0 <= l < j ==> funct.ensures(
                            (i, l, &src[i as int][l as int]),
                            #[trigger] grid@[i as int]@[l as int],
                        ),
            {
                let v = funct(i, j, &grid[i][j]);
                grid[i][j] = v;
            }
        }
        *self = Matrix { rows, cols, matrix: grid };
        assert(grid_lambda_enumerate_of(src, funct, self@));
        self
    }

    /// Applies `funct` to the elements of `self` and `other` at each
    /// position and collects the results in a new matrix; the two matrices
    /// must have the same numbers of rows and of columns.
    pub fn map<F: Fn(&T, &T) -> T>(&self, other: &Matrix<T>, funct: F) -> (r: Result<
        Matrix<T>,
        LinalgError,
    >)
        requires
            self.num_rows() == other.num_rows() && self.num_cols() == other.num_cols()
                ==> grid_map_ready(self@, other@, funct),
        ensures
            match r {
                Ok(m) => {
                    &&& self.num_rows() == other.num_rows()
                    &&& self.num_cols() == other.num_cols()
                    &&& m.num_rows() == self.num_rows()
                    &&& m.num_cols() == self.num_cols()
                    &&& grid_map_of(self@, other@, funct, m@)
                },
                Err(e) => {
                    &&& (self.num_rows() != other.num_rows() || self.num_cols() != other.num_cols())
                    &&& e == LinalgError::ShapeMismatch
                },
            },
    {
        proof {
            use_type_invariant(self);
            use_type_invariant(other);
        }
        if self.rows != other.rows || self.cols != other.cols {
            return Err(LinalgError::ShapeMismatch);
        }
        let mut out: Vec<Vec<T>> = Vec::with_capacity(self.rows);
        for i in 0..self.rows
            invariant
                self.well_formed(),
                other.well_formed(),
                other.rows == self.rows,
                other.cols == self.cols,
                grid_map_ready(self@, other@, funct),
                out@.len() == i,
                forall|k: int| 0 <= k < i ==> #[trigger] out@[k]@.len() == self.cols,
                forall|k: int, l: int|
                    0 <= k < i && 0 <= l < self.cols ==> funct.ensures(
                        (&self@[k][l], &other@[k][l]),
                        #[trigger] out@[k]@[l],
                    ),
        {
            let a_row = &self.matrix[i];
            let b_row = &other.matrix[i];
            let mut row: Vec<T> = Vec::with_capacity(self.cols);
            for j in 0..self.cols
                invariant
                    self.well_formed(),
                    other.well_formed(),
                    other.rows == self.rows,
                    other.cols == self.cols,
                    grid_map_ready(self@, other@, funct),
                    0 <= i < self.rows,
                    a_row@ == self@[i as int],
                    b_row@ == other@[i as int],
                    row@.len() == j,
                    forall|l: int|
                        0 <= l < j ==> funct.ensures(
                            (&self@[i as int][l], &other@[i as int][l]),
                            #[trigger] row@[l],
                        ),
            {
                row.push(funct(&a_row[j], &b_row[j]));
            }
            out.push(row);
        }
        let r = Matrix { rows: self.rows, cols: self.cols, matrix: out };
        assert(grid_map_of(self@, other@, funct, r@));
        Ok(r)
    }

    /// Replaces each element with the result of `funct` on it and the
    /// element of `other` at the same position, in place, and returns the
    /// same matrix; the two matrices must have the same numbers of rows and
    /// of columns.
    pub fn map_mut<F: Fn(&T, &T) -> T>(&mut self, other: &Matrix<T>, funct: F) -> (r: Result<
        &mut Matrix<T>,
        LinalgError,
    >)
        requires
            old(self).num_rows() == other.num_rows() && old(self).num_cols() == other.num_cols()
                ==> grid_map_ready(old(self)@, other@, funct),
        ensures
            match r {
                Ok(m) => {
                    &&& old(self).num_rows() == other.num_rows()
                    &&& old(self).num_cols() == other.num_cols()
                    &&& m.num_rows() == old(self).num_rows()
                    &&& m.num_cols() == old(self).num_cols()
                    &&& grid_map_of(old(self)@, other@, funct, m@)
                    &&& *final(self) == *final(m)
                },
                Err(e) => {
                    &&& (old(self).num_rows() != other.num_rows() || old(self).num_cols()
                        != other.num_cols())
                    &&& e == LinalgError::ShapeMismatch
                    &&& *final(self) == *old(self)
                },
            },
    {
        proof {
            use_type_invariant(&*self);
            use_type_invariant(other);
        }
        if self.rows != other.rows || self.cols != other.cols {
            return Err(LinalgError::ShapeMismatch);
        }
        let ghost src = self@;
        let mut taken = Matrix { rows: 0, cols: 0, matrix: Vec::new() };
        std::mem::swap(self, &mut taken);
        let Matrix { rows, cols, matrix: mut grid } = taken;
        assert(forall|k: int| 0 <= k < rows ==> #[trigger] grid@[k]@ == src[k]);
        for i in 0..rows
            invariant
                has_shape(src, rows as nat, cols as nat),
                other.well_formed(),
                other.rows == rows,
                other.cols == cols,
                grid_map_ready(src, other@, funct),
                grid@.len() == rows,
                forall|k: int| 0 <= k < rows ==> #[trigger] grid@[k]@.len() == cols,
                forall|k: int| i <= k < rows ==> #[trigger] grid@[k]@ == src[k],
                forall|k: int, l: int|
                    0 <= k < i && 0 <= l < cols ==> funct.ensures(
                        (&src[k][l], &other@[k][l]),
                        #[trigger] grid@[k]@[l],
                    ),
        {
            let b_row = &other.matrix[i];
            for j in 0..cols
                invariant
                    has_shape(src, rows as nat, cols as nat),
                    other.well_formed(),
                    other.rows == rows,
                    other.cols == cols,
                    grid_map_ready(src, other@, funct),
                    0 <= i < rows,
                    b_row@ == other@[i as int],
                    grid@.len() == rows,
                    forall|k: int| 0 <= k < rows ==> #[trigger] grid@[k]@.len() == cols,
                    forall|k: int| i < k < rows ==> #[trigger] grid@[k]@ == src[k],
                    forall|l: int| j <= l < cols ==> #[trigger] grid@[i as int]@[l] == src[i as int][l],
                    forall|k: int, l: int|
                        0 <= k < i && 0 <= l < cols ==> funct.ensures(
                            (&src[k][l], &other@[k][l]),
                            #[trigger] grid@[k]@[l],
                        ),
                    forall|l: int|
                        0 <= l < j ==> funct.ensures(
                            (&src[i as int][l], &other@[i as int][l]),
                            #[trigger] grid@[i as int]@[l],
                        ),
            {
                let v = funct(&grid[i][j], &b_row[j]);
                grid[i][j] = v;
            }
        }
        *self = Matrix { rows, cols, matrix: grid };
        assert(grid_map_of(src, other@, funct, self@));
        Ok(self)
    }

    /// Applies `funct` to each position (row, then column) and the elements
    /// of `self` and `other` there, and collects the results in a new matrix; the two matrices
    /// must have the same numbers of rows and of columns.
    pub fn map_enumerate<F: Fn(usize, usize, &T, &T) -> T>(
        &self,
        other: &Matrix<T>,
        funct: F,
    ) -> (r: Result<Matrix<T>, LinalgError>)
        requires
            self.num_rows() == other.num_rows() && self.num_cols() == other.num_cols()
                ==> grid_map_enumerate_ready(self@, other@, funct),
        ensures
            match r {
                Ok(m) => {
                    &&& self.num_rows() == other.num_rows()
                    &&& self.num_cols() == other.num_cols()
                    &&& m.num_rows() == self.num_rows()
                    &&& m.num_cols() == self.num_cols()
                    &&& grid_map_enumerate_of(self@, other@, funct, m@)
                },
                Err(e) => {
                    &&& (self.num_rows() != other.num_rows() || self.num_cols() != other.num_cols())
                    &&& e == LinalgError::ShapeMismatch
                },
            },
    {
        proof {
            use_type_invariant(self);
            use_type_invariant(other);
        }
        if self.rows != other.rows || self.cols != other.cols {
            return Err(LinalgError::ShapeMismatch);
        }
        let mut out: Vec<Vec<T>> = Vec::with_capacity(self.rows);
        for i in 0..self.rows
            invariant
                self.well_formed(),
                other.well_formed(),
                other.rows == self.rows,
                other.cols == self.cols,
                grid_map_enumerate_ready(self@, other@, funct),
                out@.len() == i,
                forall|k: int| 0 <= k < i ==> #[trigger] out@[k]@.len() == self.cols,
                forall|k: usize, l: usize|
                    0 <= k < i && 0 <= l < self.cols ==> funct.ensures(
                        (k, l, &self@[k as int][l as int], &other@[k as int][l as int]),
                        #[trigger] out@[k as int]@[l as int],
                    ),
        {
            let a_row = &self.matrix[i];
            let b_row = &other.matrix[i];
            let mut row: Vec<T> = Vec::with_capacity(self.cols);
            for j in 0..self.cols
                invariant
                    self.well_formed(),
                    other.well_formed(),
                    other.rows == self.rows,
                    other.cols == self.cols,
                    grid_map_enumerate_ready(self@, other@, funct),
                    0 <= i < self.rows,
                    a_row@ == self@[i as int],
                    b_row@ == other@[i as int],
                    row@.len() == j,
                    forall|l: usize|
                        0 <= l < j ==> funct.ensures(
                            (i, l, &self@[i as int][l as int], &other@[i as int][l as int]),
                            #[trigger] row@[l as int],
                        ),
            {
                row.push(funct(i, j, &a_row[j], &b_row[j]));
            }
            out.push(row);
        }
        let r = Matrix { rows: self.rows, cols: self.cols, matrix: out };
        assert(grid_map_enumerate_of(self@, other@, funct, r@));
        Ok(r)
    }

    /// Replaces each element with the result of `funct` on its position (row,
    /// then column), itself and the element of `other` there, in place, and returns the
    /// same matrix; the two matrices must have the same numbers of rows and
    /// of columns.
    pub fn map_enumerate_mut<F: Fn(usize, usize, &T, &T) -> T>(
        &mut self,
        other: &Matrix<T>,
        funct: F,
    ) -> (r: Result<&mut Matrix<T>, LinalgError>)
        requires
            old(self).num_rows() == other.num_rows() && old(self).num_cols() == other.num_cols()
                ==> grid_map_enumerate_ready(old(self)@, other@, funct),
        ensures
            match r {
                Ok(m) => {
                    &&& old(self).num_rows() == other.num_rows()
                    &&& old(self).num_cols() == other.num_cols()
                    &&& m.num_rows() == old(self).num_rows()
                    &&& m.num_cols() == old(self).num_cols()
                    &&& grid_map_enumerate_of(old(self)@, other@, funct, m@)
                    &&& *final(self) == *final(m)
                },
                Err(e) => {
                    &&& (old(self).num_rows() != other.num_rows() || old(self).num_cols()
                        != other.num_cols())
                    &&& e == LinalgError::ShapeMismatch
                    &&& *final(self) == *old(self)
                },
            },
    {
        proof {
            use_type_invariant(&*self);
            use_type_invariant(other);
        }
        if self.rows != other.rows || self.cols != other.cols {
            return Err(LinalgError::ShapeMismatch);
        }
        let ghost src = self@;
        let mut taken = Matrix { rows: 0, cols: 0, matrix: Vec::new() };
        std::mem::swap(self, &mut taken);
        let Matrix { rows, cols, matrix: mut grid } = taken;
        assert(forall|k: int| 0 <= k < rows ==> #[trigger] grid@[k]@ == src[k]);
        for i in 0..rows
            invariant
                has_shape(src, rows as nat, cols as nat),
                other.well_formed(),
                other.rows == rows,
                other.cols == cols,
                grid_map_enumerate_ready(src, other@, funct),
                grid@.len() == rows,
                forall|k: int| 0 <= k < rows ==> #[trigger] grid@[k]@.len() == cols,
                forall|k: int| i <= k < rows ==> #[trigger] grid@[k]@ == src[k],
                forall|k: usize, l: usize|
                    0 <= k < i && 0 <= l < cols ==> funct.ensures(
                        (k, l, &src[k as int][l as int], &other@[k as int][l as int]),
                        #[trigger] grid@[k as int]@[l as int],
                    ),
        {
            let b_row = &other.matrix[i];
            for j in 0..cols
                invariant
                    has_shape(src, rows as nat, cols as nat),
                    other.well_formed(),
                    other.rows == rows,
                    other.cols == cols,
                    grid_map_enumerate_ready(src, other@, funct),
                    0 <= i < rows,
                    b_row@ == other@[i as int],
                    grid@.len() == rows,
                    forall|k: int| 0 <= k < rows ==> #[trigger] grid@[k]@.len() == cols,
                    forall|k: int| i < k < rows ==> #[trigger] grid@[k]@ == src[k],
                    forall|l: int| j <= l < cols ==> #[trigger] grid@[i as int]@[l] == src[i as int][l],
                    forall|k: usize, l: usize|
                        0 <= k < i && 0 <= l < cols ==> funct.ensures(
                            (k, l, &src[k as int][l as int], &other@[k as int][l as int]),
                            #[trigger] grid@[k as int]@[l as int],
                        ),
                    forall|l: usize|
                        0 <= l < j ==> funct.ensures(
                            (i, l, &src[i as int][l as int], &other@[i as int][l as int]),
                            #[trigger] grid@[i as int]@[l as int],
                        ),
            {
                let v = funct(i, j, &grid[i][j], &b_row[j]);
                grid[i][j] = v;
            }
        }
        *self = Matrix { rows, cols, matrix: grid };
        assert(grid_map_enumerate_of(src, other@, funct, self@));
        Ok(self)
    }

    /// Turns a matrix of one row, or of one column, into a vector of its
    /// elements; a matrix of one row gives its row.
    pub fn into_vector(self) -> (r: Result<Vector<T>, LinalgError>)
        ensures
            match r {
                Ok(v) => {
                    &&& self.num_rows() == 1 || self.num_cols() == 1
                    &&& v@ == if self.num_rows() == 1 {
                        self@[0]
                    } else {
                        column(self@, 0)
                    }
                },
                Err(e) => {
                    &&& self.num_rows() != 1
                    &&& self.num_cols() != 1
                    &&& e == LinalgError::InvalidConversion
                },
            },
    {
        proof {
            use_type_invariant(&self);
        }
        let ghost src = self@;
        let Matrix { rows, cols, matrix } = self;
        if rows == 1 {
            let mut matrix = matrix;
            let row = matrix.remove(0);
            Ok(Vector::new(row))
        } else if cols == 1 {
            let mut list: Vec<T> = Vec::with_capacity(rows);
            let ghost stored = matrix@;
            for row in it: matrix.into_iter()
                invariant
                    it.seq() == stored,
                    rows_view(stored) == src,
                    has_shape(src, rows as nat, 1),
                    list@.len() == it.index(),
                    forall|k: int| 0 <= k < list@.len() ==> #[trigger] list@[k] == src[k][0],
            {
                let mut row = row;
                assert(row@ == src[list@.len() as int]);
                list.push(row.remove(0));
            }
            assert(list@ == column(src, 0));
            Ok(Vector::new(list))
        } else {
            Err(LinalgError::InvalidConversion)
        }
    }
}

impl<T: Numeric> Matrix<T> {
    /// Adds `other` to `self` position by position; the two matrices must
    /// have the same numbers of rows and of columns.
    pub fn add(&self, other: &Matrix<T>) -> (r: Result<Matrix<T>, LinalgError>)
        ensures
            match r {
                Ok(m) => {
                    &&& self.num_rows() == other.num_rows()
                    &&& self.num_cols() == other.num_cols()
                    &&& m.num_rows() == self.num_rows()
                    &&& m.num_cols() == self.num_cols()
                    &&& m@ == add_grid(self@, other@)
                },
                Err(e) => {
                    &&& (self.num_rows() != other.num_rows() || self.num_cols() != other.num_cols())
                    &&& e == LinalgError::ShapeMismatch
                },
            },
    {
        proof {
            use_type_invariant(self);
            use_type_invariant(other);
        }
        if self.rows != other.rows || self.cols != other.cols {
            return Err(LinalgError::ShapeMismatch);
        }
        let mut out: Vec<Vec<T>> = Vec::with_capacity(self.rows);
        for i in 0..self.rows
            invariant
                self.well_formed(),
                other.well_formed(),
                other.rows == self.rows,
                other.cols == self.cols,
                out@.len() == i,
                forall|k: int| 0 <= k < i ==> #[trigger] out@[k]@ == add_seq(self@[k], other@[k]),
                forall|k: int| 0 <= k < i ==> #[trigger] out@[k]@.len() == self.cols,
        {
            out.push(add_vec(&self.matrix[i], &other.matrix[i]));
        }
        let r = Matrix { rows: self.rows, cols: self.cols, matrix: out };
        assert(r@ =~= add_grid(self@, other@));
        Ok(r)
    }

    /// Adds `other` to `self` position by position, in place, and returns
    /// the same matrix; the two matrices must have the same numbers of rows
    /// and of columns.
    pub fn add_mut(&mut self, other: &Matrix<T>) -> (r: Result<&mut Matrix<T>, LinalgError>)
        ensures
            match r {
                Ok(m) => {
                    &&& old(self).num_rows() == other.num_rows()
                    &&& old(self).num_cols() == other.num_cols()
                    &&& m.num_rows() == old(self).num_rows()
                    &&& m.num_cols() == old(self).num_cols()
                    &&& m@ == add_grid(old(self)@, other@)
                    &&& *final(self) == *final(m)
                },
                Err(e) => {
                    &&& (old(self).num_rows() != other.num_rows() || old(self).num_cols()
                        != other.num_cols())
                    &&& e == LinalgError::ShapeMismatch
                    &&& *final(self) == *old(self)
                },
            },
    {
        proof {
            use_type_invariant(&*self);
            use_type_invariant(other);
        }
        if self.rows != other.rows || self.cols != other.cols {
            return Err(LinalgError::ShapeMismatch);
        }
        let ghost src = self@;
        let mut taken = Matrix { rows: 0, cols: 0, matrix: Vec::new() };
        std::mem::swap(self, &mut taken);
        let Matrix { rows, cols, matrix: mut grid } = taken;
        assert(forall|k: int| 0 <= k < rows ==> #[trigger] grid@[k]@ == src[k]);
        for i in 0..rows
            invariant
                has_shape(src, rows as nat, cols as nat),
                other.well_formed(),
                other.rows == rows,
                other.cols == cols,
                grid@.len() == rows,
                forall|k: int| i <= k < rows ==> #[trigger] grid@[k]@ == src[k],
                forall|k: int| 0 <= k < i ==> #[trigger] grid@[k]@ == add_seq(src[k], other@[k]),
        {
            add_vec_in_place(&mut grid[i], &other.matrix[i]);
        }
        *self = Matrix { rows, cols, matrix: grid };
        assert(self@ =~= add_grid(src, other@));
        Ok(self)
    }

    /// Multiplies each element by `scalar`, the scalar on the right.
    pub fn mul(&self, scalar: T) -> (r: Matrix<T>)
        ensures
            r.num_rows() == self.num_rows(),
            r.num_cols() == self.num_cols(),
            r@ == scale_grid(self@, scalar),
    {
        proof {
            use_type_invariant(self);
        }
        let mut out: Vec<Vec<T>> = Vec::with_capacity(self.rows);
        for i in 0..self.rows
            invariant
                self.well_formed(),
                out@.len() == i,
                forall|k: int| 0 <= k < i ==> #[trigger] out@[k]@ == scale_seq(self@[k], scalar),
                forall|k: int| 0 <= k < i ==> #[trigger] out@[k]@.len() == self.cols,
        {
            out.push(scale_vec(&self.matrix[i], scalar));
        }
        let r = Matrix { rows: self.rows, cols: self.cols, matrix: out };
        assert(r@ =~= scale_grid(self@, scalar));
        r
    }

    /// Multiplies each element by `scalar`, the scalar on the right, in
    /// place, and returns the same matrix.
    pub fn mul_mut(&mut self, scalar: T) -> (r: &mut Matrix<T>)
        ensures
            r.num_rows() == old(self).num_rows(),
            r.num_cols() == old(self).num_cols(),
            r@ == scale_grid(old(self)@, scalar),
            *final(self) == *final(r),
    {
        proof {
            use_type_invariant(&*self);
        }
        let ghost src = self@;
        let mut taken = Matrix { rows: 0, cols: 0, matrix: Vec::new() };
        std::mem::swap(self, &mut taken);
        let Matrix { rows, cols, matrix: mut grid } = taken;
        assert(forall|k: int| 0 <= k < rows ==> #[trigger] grid@[k]@ == src[k]);
        for i in 0..rows
            invariant
                has_shape(src, rows as nat, cols as nat),
                grid@.len() == rows,
                forall|k: int| i <= k < rows ==> #[trigger] grid@[k]@ == src[k],
                forall|k: int| 0 <= k < i ==> #[trigger] grid@[k]@ == scale_seq(src[k], scalar),
        {
            scale_vec_in_place(&mut grid[i], scalar);
        }
        *self = Matrix { rows, cols, matrix: grid };
        assert(self@ =~= scale_grid(src, scalar));
        self
    }

    /// Multiplies `scalar`, on the left, by each element of `matrix`.
    pub fn left_mul(scalar: T, matrix: &Matrix<T>) -> (r: Matrix<T>)
        ensures
            r.num_rows() == matrix.num_rows(),
            r.num_cols() == matrix.num_cols(),
            r@ == left_scale_grid(scalar, matrix@),
    {
        proof {
            use_type_invariant(matrix);
        }
        let mut out: Vec<Vec<T>> = Vec::with_capacity(matrix.rows);
        for i in 0..matrix.rows
            invariant
                matrix.well_formed(),
                out@.len() == i,
                forall|k: int|
                    0 <= k < i ==> #[trigger] out@[k]@ == left_scale_seq(scalar, matrix@[k]),
                forall|k: int| 0 <= k < i ==> #[trigger] out@[k]@.len() == matrix.cols,
        {
            out.push(left_scale_vec(scalar, &matrix.matrix[i]));
        }
        let r = Matrix { rows: matrix.rows, cols: matrix.cols, matrix: out };
        assert(r@ =~= left_scale_grid(scalar, matrix@));
        r
    }

    /// The product of `self` and the column vector `vector`, whose length
    /// must be the number of columns of `self`.
    pub fn mul_vector(&self, vector: &Vector<T>) -> (r: Result<Vector<T>, LinalgError>)
        ensures
            match r {
                Ok(v) => vector@.len() == self.num_cols() && v@ == mul_vec_grid(self@, vector@),
                Err(e) => vector@.len() != self.num_cols() && e == LinalgError::ShapeMismatch,
            },
    {
        proof {
            use_type_invariant(self);
        }
        let list = vector.list();
        if list.len() != self.cols {
            return Err(LinalgError::ShapeMismatch);
        }
        let mut out: Vec<T> = Vec::with_capacity(self.rows);
        for i in 0..self.rows
            invariant
                self.well_formed(),
                list@.len() == self.cols,
                out@ == mul_vec_grid(self@, list@).take(i as int),
        {
            out.push(dot_vec(&self.matrix[i], list));
        }
        assert(out@ == mul_vec_grid(self@, list@));
        Ok(Vector::new(out))
    }

    /// The product of `self` and `other`; the number of columns of `self`
    /// must be the number of rows of `other`.
    pub fn mul_matrix(&self, other: &Matrix<T>) -> (r: Result<Matrix<T>, LinalgError>)
        ensures
            match r {
                Ok(m) => {
                    &&& self.num_cols() == other.num_rows()
                    &&& m.num_rows() == self.num_rows()
                    &&& m.num_cols() == other.num_cols()
                    &&& m@ == mul_grid(self@, other@, other.num_cols())
                },
                Err(e) => self.num_cols() != other.num_rows() && e == LinalgError::ShapeMismatch,
            },
    {
        proof {
            use_type_invariant(self);
            use_type_invariant(other);
        }
        if self.cols != other.rows {
            return Err(LinalgError::ShapeMismatch);
        }
        let mut out: Vec<Vec<T>> = Vec::with_capacity(self.rows);
        for i in 0..self.rows
            invariant
                self.well_formed(),
                self.cols == other.num_rows(),
                out@.len() == i,
                forall|k: int|
                    0 <= k < i ==> #[trigger] out@[k]@ == row_times_grid(
                        self@[k],
                        other@,
                        other.num_cols(),
                    ),
        {
            out.push(row_times(&self.matrix[i], other));
        }
        let r = Matrix { rows: self.rows, cols: other.cols, matrix: out };
        assert(r@ =~= mul_grid(self@, other@, other.num_cols()));
        Ok(r)
    }

    /// Replaces `self` with the product of `self` and `other`, in place, and
    /// returns the same matrix; the number of columns of `self` must be the
    /// number of rows of `other`. The product keeps the number of rows of
    /// `self` and takes the number of columns of `other`.
    pub fn mul_matrix_mut(&mut self, other: &Matrix<T>) -> (r: Result<&mut Matrix<T>, LinalgError>)
        ensures
            match r {
                Ok(m) => {
                    &&& old(self).num_cols() == other.num_rows()
                    &&& m.num_rows() == old(self).num_rows()
                    &&& m.num_cols() == other.num_cols()
                    &&& m@ == mul_grid(old(self)@, other@, other.num_cols())
                    &&& *final(self) == *final(m)
                },
                Err(e) => {
                    &&& old(self).num_cols() != other.num_rows()
                    &&& e == LinalgError::ShapeMismatch
                    &&& *final(self) == *old(self)
                },
            },
    {
        proof {
            use_type_invariant(&*self);
            use_type_invariant(other);
        }
        if self.cols != other.rows {
            return Err(LinalgError::ShapeMismatch);
        }
        let ghost src = self@;
        let mut taken = Matrix { rows: 0, cols: 0, matrix: Vec::new() };
        std::mem::swap(self, &mut taken);
        let Matrix { rows, cols, matrix: mut grid } = taken;
        assert(forall|k: int| 0 <= k < rows ==> #[trigger] grid@[k]@ == src[k]);
        for i in 0..rows
            invariant
                has_shape(src, rows as nat, cols as nat),
                cols == other.num_rows(),
                grid@.len() == rows,
                forall|k: int| i <= k < rows ==> #[trigger] grid@[k]@ == src[k],
                forall|k: int|
                    0 <= k < i ==> #[trigger] grid@[k]@ == row_times_grid(
                        src[k],
                        other@,
                        other.num_cols(),
                    ),
        {
            let row = row_times(&grid[i], other);
            grid[i] = row;
        }
        *self = Matrix { rows, cols: other.cols, matrix: grid };
        assert(self@ =~= mul_grid(src, other@, other.num_cols()));
        Ok(self)
    }
}

/// The row vector `row` times the matrix `rhs`, whose number of rows is the
/// length of `row`.
fn row_times<T: Numeric>(row: &Vec<T>, rhs: &Matrix<T>) -> (r: Vec<T>)
    requires
        row@.len() == rhs.num_rows(),
    ensures
        r@ == row_times_grid(row@, rhs@, rhs.num_cols()),
        r@.len() == rhs.num_cols(),
{
    proof {
        use_type_invariant(rhs);
    }
    let mut out: Vec<T> = Vec::with_capacity(rhs.cols);
    for j in 0..rhs.cols
        invariant
            rhs.well_formed(),
            row@.len() == rhs.rows,
            out@ == row_times_grid(row@, rhs@, rhs.cols as nat).take(j as int),
    {
        let mut acc = T::zero();
        for k in 0..rhs.rows
            invariant
                rhs.well_formed(),
                row@.len() == rhs.rows,
                0 <= j < rhs.cols,
                acc == dot_prefix(row@, column(rhs@, j as int), k as nat),
        {
            acc = acc.add_elem(row[k].mul_elem(rhs.matrix[k][j]));
        }
        out.push(acc);
        assert(out@ == row_times_grid(row@, rhs@, rhs.cols as nat).take(j + 1));
    }
    assert(out@ == row_times_grid(row@, rhs@, rhs.cols as nat));
    out
}

} // verus!
