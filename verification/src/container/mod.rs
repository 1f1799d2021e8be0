//! Discrete bounding regions, their row-major enumeration, and the plane
//! table of the view frustum.

pub mod area;
pub mod frustum;
pub mod row_major;
pub mod volume;

pub use self::area::{Area, AreaIterator};
pub use self::frustum::FrustumPlaneType;
pub use self::volume::{Volume, VolumeIterator};
