//! Directed numeric vectors and row-major matrices, with arithmetic,
//! equality and a fixed textual rendering.

pub mod elementwise;
pub mod laws;
pub mod matrix;
pub mod number;
pub mod text;
pub mod vector;

pub use matrix::{Matrix, MatrixError, MatrixView};
pub use number::Number;
pub use vector::{Direction, Vector, VectorError, VectorView};
