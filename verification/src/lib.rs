//! Exact 3D math primitives: vectors, 3x3 and 4x4 matrices, and quaternions.
//!
//! Every value is built over an exact rational scalar, so the algebraic
//! operations (sums, cross and dot products, matrix and Hamilton products,
//! rotation application) are verified against a mathematical model with no
//! rounding. Operations that inherently need irrational results (square
//! roots, trigonometry) live outside this crate.

pub mod scalar;
pub mod vector;
pub mod quaternion;
pub mod matrix3;
pub mod matrix4;
