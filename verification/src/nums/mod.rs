//! Number types.

pub mod complex;
