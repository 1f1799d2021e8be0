//! Verified building blocks for 3D math: discrete regions and their
//! enumeration, the layout of 4x4 matrices, the plane table of the view
//! frustum, and a seeded pseudo-random source.

pub mod container;
pub mod matrix;
pub mod random;
pub mod utils;
pub mod vector;
