use vstd::prelude::*;

use crate::element::Numeric;
use crate::error::LinalgError;
use crate::matrix::Matrix;

verus! {

/// The elements of `a + b`, position by position.
pub open spec fn add_seq<T: Numeric>(a: Seq<T>, b: Seq<T>) -> Seq<T> {
    Seq::new(a.len(), |i: int| T::spec_add(a[i], b[i]))
}

/// The elements of `a` each multiplied by `s` on the right.
pub open spec fn scale_seq<T: Numeric>(a: Seq<T>, s: T) -> Seq<T> {
    Seq::new(a.len(), |i: int| T::spec_mul(a[i], s))
}

/// `s` multiplied on the left by each element of `a`.
pub open spec fn left_scale_seq<T: Numeric>(s: T, a: Seq<T>) -> Seq<T> {
    Seq::new(a.len(), |i: int| T::spec_mul(s, a[i]))
}

/// The sum of `a[i] * b[i]` over the first `n` positions, accumulated from
/// the zero in increasing order of `i`.
pub open spec fn dot_prefix<T: Numeric>(a: Seq<T>, b: Seq<T>, n: nat) -> T
    decreases n,
{
    if n == 0 {
        T::spec_zero()
    } else {
        T::spec_add(dot_prefix(a, b, (n - 1) as nat), T::spec_mul(a[n - 1], b[n - 1]))
    }
}

/// The dot product of `a` and `b`.
pub open spec fn dot_seq<T: Numeric>(a: Seq<T>, b: Seq<T>) -> T {
    dot_prefix(a, b, a.len())
}

/// `funct` may be called on every element of `src`.
pub open spec fn lambda_ready<T, F: Fn(&T) -> T>(src: Seq<T>, funct: F) -> bool {
    forall|i: int| 0 <= i < src.len() ==> #[trigger] funct.requires((&src[i],))
}

/// `dst` holds, at each position, a result of `funct` on the element of
/// `src` there.
pub open spec fn lambda_of<T, F: Fn(&T) -> T>(src: Seq<T>, funct: F, dst: Seq<T>) -> bool {
    &&& dst.len() == src.len()
    &&& forall|i: int| 0 <= i < src.len() ==> funct.ensures((&src[i],), #[trigger] dst[i])
}

/// `funct` may be called on every position below `n`.
pub open spec fn lambda_index_ready<T, F: Fn(usize) -> T>(n: nat, funct: F) -> bool {
    forall|i: usize| 0 <= i < n ==> #[trigger] funct.requires((i,))
}

/// `dst` has length `n` and holds, at each position, a result of `funct` on
/// that position.
pub open spec fn lambda_index_of<T, F: Fn(usize) -> T>(n: nat, funct: F, dst: Seq<T>) -> bool {
    &&& dst.len() == n
    &&& forall|i: usize| 0 <= i < n ==> funct.ensures((i,), #[trigger] dst[i as int])
}

/// `funct` may be called on every position of `src` with its element.
pub open spec fn lambda_enumerate_ready<T, F: Fn(usize, &T) -> T>(src: Seq<T>, funct: F) -> bool {
    forall|i: usize| 0 <= i < src.len() ==> #[trigger] funct.requires((i, &src[i as int]))
}

/// `dst` holds, at each position, a result of `funct` on that position and
/// the element of `src` there.
pub open spec fn lambda_enumerate_of<T, F: Fn(usize, &T) -> T>(
    src: Seq<T>,
    funct: F,
    dst: Seq<T>,
) -> bool {
    &&& dst.len() == src.len()
    &&& forall|i: usize|
        0 <= i < src.len() ==> funct.ensures((i, &src[i as int]), #[trigger] dst[i as int])
}

/// `funct` may be called on every pair of elements at a common position.
pub open spec fn map_ready<T, F: Fn(&T, &T) -> T>(a: Seq<T>, b: Seq<T>, funct: F) -> bool {
    forall|i: int| 0 <= i < a.len() ==> #[trigger] funct.requires((&a[i], &b[i]))
}

/// `dst` holds, at each position, a result of `funct` on the elements of
/// `a` and `b` there.
pub open spec fn map_of<T, F: Fn(&T, &T) -> T>(a: Seq<T>, b: Seq<T>, funct: F, dst: Seq<T>) -> bool {
    &&& dst.len() == a.len()
    &&& forall|i: int| 0 <= i < a.len() ==> funct.ensures((&a[i], &b[i]), #[trigger] dst[i])
}

/// `funct` may be called on every position with the elements there.
pub open spec fn map_enumerate_ready<T, F: Fn(usize, &T, &T) -> T>(
    a: Seq<T>,
    b: Seq<T>,
    funct: F,
) -> bool {
    forall|i: usize| 0 <= i < a.len() ==> #[trigger] funct.requires((i, &a[i as int], &b[i as int]))
}

/// `dst` holds, at each position, a result of `funct` on that position and
/// the elements of `a` and `b` there.
pub open spec fn map_enumerate_of<T, F: Fn(usize, &T, &T) -> T>(
    a: Seq<T>,
    b: Seq<T>,
    funct: F,
    dst: Seq<T>,
) -> bool {
    &&& dst.len() == a.len()
    &&& forall|i: usize|
        0 <= i < a.len() ==> funct.ensures((i, &a[i as int], &b[i as int]), #[trigger] dst[i as int])
}

/// A sequence of elements, of any length.
#[derive(Debug, Clone, PartialEq, Eq)]
pub struct Vector<T> {
    list: Vec<T>,
}

impl<T> View for Vector<T> {
    type V = Seq<T>;

    closed spec fn view(&self) -> Seq<T> {
        self.list@
    }
}

impl<T> From<Vec<T>> for Vector<T> {
    fn from(list: Vec<T>) -> (r: Vector<T>) {
        Vector { list }
    }
}

impl<T> vstd::std_specs::convert::FromSpecImpl<Vec<T>> for Vector<T> {
    open spec fn obeys_from_spec() -> bool {
        true
    }

    closed spec fn from_spec(list: Vec<T>) -> Vector<T> {
        Vector { list }
    }
}

impl<T> Vector<T> {
    /// Builds a vector holding the elements of `list`, in order.
    pub fn new(list: Vec<T>) -> (r: Vector<T>)
        ensures
            r@ == list@,
    {
        Vector { list }
    }

    /// Returns the number of elements.
    pub fn len(&self) -> (r: usize)
        ensures
            r == self@.len(),
    {
        self.list.len()
    }

    /// Borrows the elements.
    pub fn list(&self) -> (r: &Vec<T>)
        ensures
            r@ == self@,
    {
        &self.list
    }

    /// Unwraps the elements.
    pub fn into_inner(self) -> (r: Vec<T>)
        ensures
            r@ == self@,
    {
        self.list
    }

    /// Applies `funct` to each element and collects the results in a new
    /// vector.
    pub fn lambda<F: Fn(&T) -> T>(&self, funct: F) -> (r: Vector<T>)
        requires
            lambda_ready(self@, funct),
        ensures
            lambda_of(self@, funct, r@),
    {
        let n = self.list.len();
        let mut out: Vec<T> = Vec::with_capacity(n);
        for i in 0..n
            invariant
                n == self@.len(),
                lambda_ready(self@, funct),
                out@.len() == i,
                forall|k: int| 0 <= k < i ==> funct.ensures((&self@[k],), #[trigger] out@[k]),
        {
            out.push(funct(&self.list[i]));
        }
        Vector { list: out }
    }

    /// Replaces each element with the result of `funct` on it, in place, and
    /// returns the same vector.
    pub fn lambda_mut<F: Fn(&T) -> T>(&mut self, funct: F) -> (r: &mut Vector<T>)
        requires
            lambda_ready(old(self)@, funct),
        ensures
            lambda_of(old(self)@, funct, r@),
            *final(self) == *final(r),
    {
        let ghost src = self@;
        let n = self.list.len();
        for i in 0..n
            invariant
                n == src.len(),
                lambda_ready(src, funct),
                self@.len() == n,
                forall|k: int| i <= k < n ==> #[trigger] self@[k] == src[k],
                forall|k: int| 0 <= k < i ==> funct.ensures((&src[k],), #[trigger] self@[k]),
        {
            let v = funct(&self.list[i]);
            self.list[i] = v;
        }
        self
    }

    /// Builds a vector of the same length whose element at each position is
    /// the result of `funct` on that position.
    pub fn lambda_index<F: Fn(usize) -> T>(&self, funct: F) -> (r: Vector<T>)
        requires
            lambda_index_ready(self@.len(), funct),
        ensures
            lambda_index_of(self@.len(), funct, r@),
    {
        let n = self.list.len();
        let mut out: Vec<T> = Vec::with_capacity(n);
        for i in 0..n
            invariant
                n == self@.len(),
                lambda_index_ready(self@.len(), funct),
                out@.len() == i,
                forall|k: usize| 0 <= k < i ==> funct.ensures((k,), #[trigger] out@[k as int]),
        {
            out.push(funct(i));
        }
        Vector { list: out }
    }

    /// Replaces the element at each position with the result of `funct` on
    /// that position, in place, and returns the same vector.
    pub fn lambda_index_mut<F: Fn(usize) -> T>(&mut self, funct: F) -> (r: &mut Vector<T>)
        requires
            lambda_index_ready(old(self)@.len(), funct),
        ensures
            lambda_index_of(old(self)@.len(), funct, r@),
            *final(self) == *final(r),
    {
        let n = self.list.len();
        for i in 0..n
            invariant
                n == old(self)@.len(),
                lambda_index_ready(old(self)@.len(), funct),
                self@.len() == n,
                forall|k: usize| 0 <= k < i ==> funct.ensures((k,), #[trigger] self@[k as int]),
        {
            let v = funct(i);
            self.list[i] = v;
        }
        self
    }

    /// Applies `funct` to each position and its element and collects the
    /// results in a new vector.
    pub fn lambda_enumerate<F: Fn(usize, &T) -> T>(&self, funct: F) -> (r: Vector<T>)
        requires
            lambda_enumerate_ready(self@, funct),
        ensures
            lambda_enumerate_of(self@, funct, r@),
    {
        let n = self.list.len();
        let mut out: Vec<T> = Vec::with_capacity(n);
        for i in 0..n
            invariant
                n == self@.len(),
                lambda_enumerate_ready(self@, funct),
                out@.len() == i,
                forall|k: usize|
                    0 <= k < i ==> funct.ensures((k, &self@[k as int]), #[trigger] out@[k as int]),
        {
            out.push(funct(i, &self.list[i]));
        }
        Vector { list: out }
    }

    /// Replaces each element with the result of `funct` on its position and
    /// itself, in place, and returns the same vector.
    pub fn lambda_enumerate_mut<F: Fn(usize, &T) -> T>(&mut self, funct: F) -> (r: &mut Vector<T>)
        requires
            lambda_enumerate_ready(old(self)@, funct),
        ensures
            lambda_enumerate_of(old(self)@, funct, r@),
            *final(self) == *final(r),
    {
        let ghost src = self@;
        let n = self.list.len();
        for i in 0..n
            invariant
                n == src.len(),
                lambda_enumerate_ready(src, funct),
                self@.len() == n,
                forall|k: int| i <= k < n ==> #[trigger] self@[k] == src[k],
                forall|k: usize|
                    0 <= k < i ==> funct.ensures((k, &src[k as int]), #[trigger] self@[k as int]),
        {
            let v = funct(i, &self.list[i]);
            self.list[i] = v;
        }
        self
    }

    /// Applies `funct` to the elements of `self` and `other` at each
    /// position and collects the results in a new vector; the two vectors
    /// must be of the same length.
    pub fn map<F: Fn(&T, &T) -> T>(&self, other: &Vector<T>, funct: F) -> (r: Result<
        Vector<T>,
        LinalgError,
    >)
        requires
            self@.len() == other@.len() ==> map_ready(self@, other@, funct),
        ensures
            match r {
                Ok(v) => self@.len() == other@.len() && map_of(self@, other@, funct, v@),
                Err(e) => self@.len() != other@.len() && e == LinalgError::ShapeMismatch,
            },
    {
        let n = self.list.len();
        if n != other.list.len() {
            return Err(LinalgError::ShapeMismatch);
        }
        let mut out: Vec<T> = Vec::with_capacity(n);
        for i in 0..n
            invariant
                n == self@.len(),
                n == other@.len(),
                map_ready(self@, other@, funct),
                out@.len() == i,
                forall|k: int|
                    0 <= k < i ==> funct.ensures((&self@[k], &other@[k]), #[trigger] out@[k]),
        {
            out.push(funct(&self.list[i], &other.list[i]));
        }
        Ok(Vector { list: out })
    }

    /// Replaces each element with the result of `funct` on it and the
    /// element of `other` at the same position, in place, and returns the
    /// same vector; the two vectors must be of the same length.
    pub fn map_mut<F: Fn(&T, &T) -> T>(&mut self, other: &Vector<T>, funct: F) -> (r: Result<
        &mut Vector<T>,
        LinalgError,
    >)
        requires
            old(self)@.len() == other@.len() ==> map_ready(old(self)@, other@, funct),
        ensures
            match r {
                Ok(v) => {
                    &&& old(self)@.len() == other@.len()
                    &&& map_of(old(self)@, other@, funct, v@)
                    &&& *final(self) == *final(v)
                },
                Err(e) => {
                    &&& old(self)@.len() != other@.len()
                    &&& e == LinalgError::ShapeMismatch
                    &&& *final(self) == *old(self)
                },
            },
    {
        let ghost src = self@;
        let n = self.list.len();
        if n != other.list.len() {
            return Err(LinalgError::ShapeMismatch);
        }
        for i in 0..n
            invariant
                n == src.len(),
                n == other@.len(),
                map_ready(src, other@, funct),
                self@.len() == n,
                forall|k: int| i <= k < n ==> #[trigger] self@[k] == src[k],
                forall|k: int|
                    0 <= k < i ==> funct.ensures((&src[k], &other@[k]), #[trigger] self@[k]),
        {
            let v = funct(&self.list[i], &other.list[i]);
            self.list[i] = v;
        }
        Ok(self)
    }

    /// Applies `funct` to each position and the elements of `self` and
    /// `other` there, and collects the results in a new vector; the two
    /// vectors must be of the same length.
    pub fn map_enumerate<F: Fn(usize, &T, &T) -> T>(&self, other: &Vector<T>, funct: F) -> (r:
        Result<Vector<T>, LinalgError>)
        requires
            self@.len() == other@.len() ==> map_enumerate_ready(self@, other@, funct),
        ensures
            match r {
                Ok(v) => self@.len() == other@.len() && map_enumerate_of(self@, other@, funct, v@),
                Err(e) => self@.len() != other@.len() && e == LinalgError::ShapeMismatch,
            },
    {
        let n = self.list.len();
        if n != other.list.len() {
            return Err(LinalgError::ShapeMismatch);
        }
        let mut out: Vec<T> = Vec::with_capacity(n);
        for i in 0..n
            invariant
                n == self@.len(),
                n == other@.len(),
                map_enumerate_ready(self@, other@, funct),
                out@.len() == i,
                forall|k: usize|
                    0 <= k < i ==> funct.ensures(
                        (k, &self@[k as int], &other@[k as int]),
                        #[trigger] out@[k as int],
                    ),
        {
            out.push(funct(i, &self.list[i], &other.list[i]));
        }
        Ok(Vector { list: out })
    }

    /// Replaces each element with the result of `funct` on its position,
    /// itself and the element of `other` there, in place, and returns the
    /// same vector; the two vectors must be of the same length.
    pub fn map_enumerate_mut<F: Fn(usize, &T, &T) -> T>(
        &mut self,
        other: &Vector<T>,
        funct: F,
    ) -> (r: Result<&mut Vector<T>, LinalgError>)
        requires
            old(self)@.len() == other@.len() ==> map_enumerate_ready(old(self)@, other@, funct),
        ensures
            match r {
                Ok(v) => {
                    &&& old(self)@.len() == other@.len()
                    &&& map_enumerate_of(old(self)@, other@, funct, v@)
                    &&& *final(self) == *final(v)
                },
                Err(e) => {
                    &&& old(self)@.len() != other@.len()
                    &&& e == LinalgError::ShapeMismatch
                    &&& *final(self) == *old(self)
                },
            },
    {
        let ghost src = self@;
        let n = self.list.len();
        if n != other.list.len() {
            return Err(LinalgError::ShapeMismatch);
        }
        for i in 0..n
            invariant
                n == src.len(),
                n == other@.len(),
                map_enumerate_ready(src, other@, funct),
                self@.len() == n,
                forall|k: int| i <= k < n ==> #[trigger] self@[k] == src[k],
                forall|k: usize|
                    0 <= k < i ==> funct.ensures(
                        (k, &src[k as int], &other@[k as int]),
                        #[trigger] self@[k as int],
                    ),
        {
            let v = funct(i, &self.list[i], &other.list[i]);
            self.list[i] = v;
        }
        Ok(self)
    }

    /// Turns the vector into a matrix of one row.
    pub fn into_row_matrix(self) -> (r: Matrix<T>)
        ensures
            r.num_rows() == 1,
            r.num_cols() == self@.len(),
            r@ == seq![self@],
    {
        Matrix::from_row(self.list)
    }

    /// Turns the vector into a matrix of one column.
    pub fn into_col_matrix(self) -> (r: Matrix<T>)
        ensures
            r.num_rows() == self@.len(),
            r.num_cols() == 1,
            r@ == Seq::new(self@.len(), |i: int| seq![self@[i]]),
    {
        let ghost src = self@;
        let mut rows: Vec<Vec<T>> = Vec::with_capacity(self.list.len());
        for param in it: self.list.into_iter()
            invariant
                it.seq() == src,
                rows@.len() == it.index(),
                forall|k: int| 0 <= k < rows@.len() ==> #[trigger] rows@[k]@ == seq![src[k]],
        {
            let mut row: Vec<T> = Vec::with_capacity(1);
            row.push(param);
            rows.push(row);
        }
        Matrix::from_column(rows)
    }
}

impl<T: Numeric> Vector<T> {
    /// Adds `other` to `self` position by position; the two vectors must be
    /// of the same length.
    pub fn add(&self, other: &Vector<T>) -> (r: Result<Vector<T>, LinalgError>)
        ensures
            match r {
                Ok(v) => self@.len() == other@.len() && v@ == add_seq(self@, other@),
                Err(e) => self@.len() != other@.len() && e == LinalgError::ShapeMismatch,
            },
    {
        if self.list.len() != other.list.len() {
            return Err(LinalgError::ShapeMismatch);
        }
        Ok(Vector { list: add_vec(&self.list, &other.list) })
    }

    /// Adds `other` to `self` position by position, in place, and returns
    /// the same vector; the two vectors must be of the same length.
    pub fn add_mut(&mut self, other: &Vector<T>) -> (r: Result<&mut Vector<T>, LinalgError>)
        ensures
            match r {
                Ok(v) => {
                    &&& old(self)@.len() == other@.len()
                    &&& v@ == add_seq(old(self)@, other@)
                    &&& *final(self) == *final(v)
                },
                Err(e) => {
                    &&& old(self)@.len() != other@.len()
                    &&& e == LinalgError::ShapeMismatch
                    &&& *final(self) == *old(self)
                },
            },
    {
        if self.list.len() != other.list.len() {
            return Err(LinalgError::ShapeMismatch);
        }
        add_vec_in_place(&mut self.list, &other.list);
        Ok(self)
    }

    /// Multiplies each element by `scalar`, the scalar on the right.
    pub fn mul(&self, scalar: T) -> (r: Vector<T>)
        ensures
            r@ == scale_seq(self@, scalar),
    {
        Vector { list: scale_vec(&self.list, scalar) }
    }

    /// Multiplies each element by `scalar`, the scalar on the right, in
    /// place, and returns the same vector.
    pub fn mul_mut(&mut self, scalar: T) -> (r: &mut Vector<T>)
        ensures
            r@ == scale_seq(old(self)@, scalar),
            *final(self) == *final(r),
    {
        scale_vec_in_place(&mut self.list, scalar);
        self
    }

    /// Multiplies `scalar`, on the left, by each element of `vector`.
    pub fn left_mul(scalar: T, vector: &Vector<T>) -> (r: Vector<T>)
        ensures
            r@ == left_scale_seq(scalar, vector@),
    {
        Vector { list: left_scale_vec(scalar, &vector.list) }
    }

    /// The dot product of `self` and `other`, which must be of the same
    /// length.
    pub fn dot(&self, other: &Vector<T>) -> (r: Result<T, LinalgError>)
        ensures
            match r {
                Ok(d) => self@.len() == other@.len() && d == dot_seq(self@, other@),
                Err(e) => self@.len() != other@.len() && e == LinalgError::ShapeMismatch,
            },
    {
        if self.list.len() != other.list.len() {
            return Err(LinalgError::ShapeMismatch);
        }
        Ok(dot_vec(&self.list, &other.list))
    }
}

/// The sums of `a` and `b` position by position.
pub(crate) fn add_vec<T: Numeric>(a: &Vec<T>, b: &Vec<T>) -> (r: Vec<T>)
    requires
        a@.len() == b@.len(),
    ensures
        r@ == add_seq(a@, b@),
{
    let n = a.len();
    let mut out: Vec<T> = Vec::with_capacity(n);
    for i in 0..n
        invariant
            n == a@.len(),
            n == b@.len(),
            out@ == add_seq(a@, b@).take(i as int),
    {
        out.push(a[i].add_elem(b[i]));
    }
    assert(add_seq(a@, b@).take(n as int) == add_seq(a@, b@));
    out
}

/// Adds `b` to `a` position by position, in place.
pub(crate) fn add_vec_in_place<T: Numeric>(a: &mut Vec<T>, b: &Vec<T>)
    requires
        old(a)@.len() == b@.len(),
    ensures
        final(a)@ == add_seq(old(a)@, b@),
{
    let ghost src = a@;
    let n = a.len();
    for i in 0..n
        invariant
            n == src.len(),
            n == b@.len(),
            a@ == add_seq(src, b@).take(i as int) + src.skip(i as int),
    {
        let v = a[i].add_elem(b[i]);
        a[i] = v;
        assert(a@ == add_seq(src, b@).take(i + 1) + src.skip(i + 1));
    }
    assert(a@ == add_seq(src, b@));
}

/// The elements of `a` each multiplied by `s` on the right.
pub(crate) fn scale_vec<T: Numeric>(a: &Vec<T>, s: T) -> (r: Vec<T>)
    ensures
        r@ == scale_seq(a@, s),
{
    let n = a.len();
    let mut out: Vec<T> = Vec::with_capacity(n);
    for i in 0..n
        invariant
            n == a@.len(),
            out@ == scale_seq(a@, s).take(i as int),
    {
        out.push(a[i].mul_elem(s));
    }
    assert(scale_seq(a@, s).take(n as int) == scale_seq(a@, s));
    out
}

/// Multiplies each element of `a` by `s` on the right, in place.
pub(crate) fn scale_vec_in_place<T: Numeric>(a: &mut Vec<T>, s: T)
    ensures
        final(a)@ == scale_seq(old(a)@, s),
{
    let ghost src = a@;
    let n = a.len();
    for i in 0..n
        invariant
            n == src.len(),
            a@ == scale_seq(src, s).take(i as int) + src.skip(i as int),
    {
        let v = a[i].mul_elem(s);
        a[i] = v;
        assert(a@ == scale_seq(src, s).take(i + 1) + src.skip(i + 1));
    }
    assert(a@ == scale_seq(src, s));
}

/// `s` multiplied on the left by each element of `a`.
pub(crate) fn left_scale_vec<T: Numeric>(s: T, a: &Vec<T>) -> (r: Vec<T>)
    ensures
        r@ == left_scale_seq(s, a@),
{
    let n = a.len();
    let mut out: Vec<T> = Vec::with_capacity(n);
    for i in 0..n
        invariant
            n == a@.len(),
            out@ == left_scale_seq(s, a@).take(i as int),
    {
        out.push(s.mul_elem(a[i]));
    }
    assert(left_scale_seq(s, a@).take(n as int) == left_scale_seq(s, a@));
    out
}

/// The dot product of two sequences of the same length, accumulated from
/// the zero in increasing order of position.
pub(crate) fn dot_vec<T: Numeric>(a: &Vec<T>, b: &Vec<T>) -> (r: T)
    requires
        a@.len() == b@.len(),
    ensures
        r == dot_seq(a@, b@),
{
    let mut acc = T::zero();
    for i in 0..a.len()
        invariant
            a@.len() == b@.len(),
            acc == dot_prefix(a@, b@, i as nat),
    {
        acc = acc.add_elem(a[i].mul_elem(b[i]));
    }
    acc
}

} // verus!
