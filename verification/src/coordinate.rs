use vstd::prelude::*;

use crate::utils;

verus! {

/// Half the latitude range, in microdegrees: latitudes live in
/// `[-90_000_000, 90_000_000]`.
pub const LATITUDE_BOUND: i64 = 90_000_000;

/// Half the longitude range, in microdegrees: longitudes live in
/// `[-180_000_000, 180_000_000]`.
pub const LONGITUDE_BOUND: i64 = 180_000_000;

/// A latitude/longitude pair, both carried in whole microdegrees
/// (`1_000_000` to the degree).
#[derive(Debug, Clone, Copy, PartialEq, Eq, PartialOrd, Structural)]
pub struct Coordinate {
    pub latitude: i64,
    pub longitude: i64,
}

/// Whether `coordinate` lies inside the legal latitude/longitude ranges.
pub open spec fn spec_in_bounds(coordinate: Coordinate) -> bool {
    &&& -LATITUDE_BOUND <= coordinate.latitude <= LATITUDE_BOUND
    &&& -LONGITUDE_BOUND <= coordinate.longitude <= LONGITUDE_BOUND
}

impl Coordinate {
    /// Constructs a new `Coordinate`, wrapping each angle around the globe
    /// so that the stored pair is always in range: a latitude of 91.6275
    /// degrees comes out as -88.3725 degrees, a longitude of -181.875
    /// degrees as 178.125 degrees.
    pub fn new(lat: i64, lon: i64) -> (coordinate: Coordinate)
        ensures
            coordinate.latitude == utils::spec_wrap_to_bounds(lat as int, LATITUDE_BOUND as int),
            coordinate.longitude == utils::spec_wrap_to_bounds(lon as int, LONGITUDE_BOUND as int),
            spec_in_bounds(coordinate),
    {
        Coordinate {
            latitude: utils::wrap_to_bounds(lat, LATITUDE_BOUND),
            longitude: utils::wrap_to_bounds(lon, LONGITUDE_BOUND),
        }
    }
}

} // verus!
