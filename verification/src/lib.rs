//! A small mathematics toolkit: dense univariate polynomials over a generic
//! coefficient ring, complex numbers, three-dimensional vectors and physical
//! units, each with a contract that Verus proves.

pub mod nums;
pub mod polynomial;
pub mod traits;
pub mod miscs;
pub mod vectors;
