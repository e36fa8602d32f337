//! Geospatial primitives in fixed-point arithmetic: geographic coordinates,
//! periodic angle wrapping, and axis-aligned bounding boxes around a point.
//!
//! Angles are carried as whole microdegrees (`1_000_000` to the degree), and
//! distances and conversion constants as thousandths of a unit, so that every
//! computation is exact integer arithmetic with a proved contract.

pub mod coordinate;
pub mod coordinate_boundaries;
pub mod distance_unit;
pub mod utils;

pub use coordinate::Coordinate;
pub use coordinate_boundaries::CoordinateBoundaries;
pub use distance_unit::DistanceUnit;
