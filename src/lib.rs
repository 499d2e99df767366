//! Dense vectors and rectangular matrices, with elementwise addition,
//! scalar multiplication, dot products, matrix products, and generic
//! element transforms.
pub mod element;
pub mod error;
pub mod laws;
pub mod matrix;
pub mod vector;

pub use element::Numeric;
pub use error::LinalgError;
pub use matrix::Matrix;
pub use vector::Vector;
