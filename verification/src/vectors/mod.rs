//! Vectors.

pub mod vector3d;
