use vstd::prelude::*;

verus! {

/// Why an operation on vectors or matrices was refused.
///
/// Every operation checks its operands before it computes or writes
/// anything, so a refused operation leaves its operands as they were.
#[derive(Debug, Clone, Copy, PartialEq, Eq)]
pub enum LinalgError {
    /// The operands' shapes do not fit the operation.
    ShapeMismatch,
    /// The rows given for a matrix are not all of the same length.
    NonRectangularInput,
    /// A matrix with neither one row nor one column was to become a vector.
    InvalidConversion,
}

} // verus!
