//! Physical units.

pub mod units;
