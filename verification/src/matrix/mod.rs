//! Four-by-four grids.

pub mod matrix4;

pub use self::matrix4::Matrix4;
