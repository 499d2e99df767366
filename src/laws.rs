use vstd::prelude::*;

use crate::element::Numeric;
use crate::matrix::{grid_lambda_of, Matrix};
use crate::vector::{scale_seq, Vector};

verus! {

/// A matrix transformed by a function that hands back the element it is
/// given is equal to the original: same numbers of rows and columns, same
/// elements.
pub proof fn lemma_lambda_identity<T, F: Fn(&T) -> T>(a: Matrix<T>, funct: F, r: Matrix<T>)
    requires
        forall|x: &T, y: T| funct.ensures((x,), y) ==> y == *x,
        r.num_rows() == a.num_rows(),
        r.num_cols() == a.num_cols(),
        grid_lambda_of(a@, funct, r@),
    ensures
        r.num_rows() == a.num_rows(),
        r.num_cols() == a.num_cols(),
        r@ == a@,
{
    assert forall|i: int| 0 <= i < a@.len() implies #[trigger] r@[i] == a@[i] by {
        assert(r@[i] =~= a@[i]);
    }
    assert(r@ =~= a@);
}

/// Multiplying a vector by `s` and then by `s2` gives the same elements as
/// multiplying it once by `s * s2`.
pub proof fn lemma_scale_twice<T: Numeric>(a: Vector<T>, s: T, s2: T)
    ensures
        scale_seq(scale_seq(a@, s), s2) == scale_seq(a@, T::spec_mul(s, s2)),
{
    assert forall|i: int| 0 <= i < a@.len() implies #[trigger] scale_seq(scale_seq(a@, s), s2)[i]
        == scale_seq(a@, T::spec_mul(s, s2))[i] by {
        T::lemma_mul_assoc(a@[i], s, s2);
    }
    assert(scale_seq(scale_seq(a@, s), s2) =~= scale_seq(a@, T::spec_mul(s, s2)));
}

} // verus!
