use vstd::prelude::*;

use crate::coordinate::{Coordinate, LATITUDE_BOUND, LONGITUDE_BOUND};
use crate::coordinate::spec_in_bounds;
use crate::distance_unit::DistanceUnit;
use crate::utils;
use vstd::arithmetic::div_mod::{
    lemma_div_is_ordered, lemma_div_is_ordered_by_denominator, lemma_div_multiples_vanish,
    lemma_div_pos_is_pos,
};
use vstd::arithmetic::mul::{lemma_mul_inequality, lemma_mul_nonnegative, lemma_mul_upper_bound};
use vstd::math::abs;

verus! {

/// The largest distance the box accepts, in thousandths of a unit: one
/// hundred million whole units, far beyond any earthly radius, kept finite
/// so that every derived field provably fits an `i64`.
pub const MAX_DISTANCE: i64 = 100_000_000_000;

/// A longitude scale of exactly one, in parts per million.
pub const LONGITUDE_SCALE_ONE: u64 = 1_000_000;

/// The largest longitude scale the box accepts, in parts per million: a
/// factor of one hundred thousand, which covers origins to within a few
/// microdegrees of the poles. Nearer the poles the scale overflows any
/// useful longitude filter, so the box does not take it.
pub const MAX_LONGITUDE_SCALE: u64 = 100_000_000_000;

/// The largest origin angle the box accepts, in microdegrees. Wrapped
/// coordinates stay far inside this; the slack only keeps the derived
/// fields of an unwrapped origin from overflowing.
pub const MAX_ORIGIN: i64 = 1_000_000_000_000_000;

/// `x` scaled by the exact ratio `num / den` and truncated toward zero,
/// the way a quotient of magnitudes with the sign put back comes out.
pub open spec fn spec_scaled_div(x: int, num: int, den: int) -> int
    recommends
        den > 0,
{
    if x >= 0 {
        (x * num) / den
    } else {
        -((-x * num) / den)
    }
}

/// How far the box reaches north and south of its origin, in microdegrees:
/// the distance divided by the latitude-degree divisor of `unit`, both in
/// thousandths, brought to the microdegree scale.
pub open spec fn spec_latitude_delta(distance: int, unit: DistanceUnit) -> int {
    spec_scaled_div(distance, 1_000_000, utils::spec_divisor(unit) as int)
}

/// How far the box reaches east and west of its origin, in microdegrees:
/// the latitude delta inflated by `longitude_scale`, the reciprocal of the
/// cosine of the origin latitude in parts per million, since longitude
/// degrees shrink toward the poles.
pub open spec fn spec_longitude_delta(distance: int, unit: DistanceUnit, longitude_scale: int) -> int {
    spec_scaled_div(spec_latitude_delta(distance, unit), longitude_scale, 1_000_000)
}

/// The unit a caller picked, or miles when the caller picked none.
pub open spec fn spec_unit_or_default(unit: Option<DistanceUnit>) -> DistanceUnit {
    match unit {
        Option::Some(u) => u,
        Option::None => DistanceUnit::Miles,
    }
}

/// An axis-aligned latitude/longitude envelope around an origin point,
/// approximating a circle of a given radius.
///
/// The four derived fields are cached and kept consistent with the origin,
/// distance, unit and longitude scale by every constructor and mutator.
pub struct CoordinateBoundaries {
    latitude: i64,
    longitude: i64,
    distance: i64,
    distance_unit: DistanceUnit,
    longitude_scale: u64,
    max_lon: i64,
    min_lon: i64,
    max_lat: i64,
    min_lat: i64,
}

impl CoordinateBoundaries {
    /// The stored origin latitude, in microdegrees.
    pub closed spec fn spec_latitude(self) -> i64 {
        self.latitude
    }

    /// The stored origin longitude, in microdegrees.
    pub closed spec fn spec_longitude(self) -> i64 {
        self.longitude
    }

    /// The stored origin as a coordinate: the pair of the stored latitude
    /// and longitude, so that a contract phrased over the origin says the
    /// same thing as one phrased over the two accessors.
    pub open spec fn spec_origin(self) -> Coordinate {
        Coordinate { latitude: self.spec_latitude(), longitude: self.spec_longitude() }
    }

    /// The stored distance, in thousandths of the stored unit.
    pub closed spec fn spec_distance(self) -> i64 {
        self.distance
    }

    /// The stored distance unit.
    pub closed spec fn spec_distance_unit(self) -> DistanceUnit {
        self.distance_unit
    }

    /// The stored longitude scale, in parts per million.
    pub closed spec fn spec_longitude_scale(self) -> u64 {
        self.longitude_scale
    }

    /// The cached southern bound, in microdegrees.
    pub closed spec fn spec_min_latitude(self) -> i64 {
        self.min_lat
    }

    /// The cached northern bound, in microdegrees.
    pub closed spec fn spec_max_latitude(self) -> i64 {
        self.max_lat
    }

    /// The cached western bound, in microdegrees.
    pub closed spec fn spec_min_longitude(self) -> i64 {
        self.min_lon
    }

    /// The cached eastern bound, in microdegrees.
    pub closed spec fn spec_max_longitude(self) -> i64 {
        self.max_lon
    }

    /// The box invariant: the inputs sit in their accepted ranges and all
    /// four cached bounds equal what the current inputs derive. Every
    /// constructor establishes it and every mutator re-establishes it.
    pub closed spec fn wf(self) -> bool {
        &&& -MAX_ORIGIN <= self.latitude <= MAX_ORIGIN
        &&& -MAX_ORIGIN <= self.longitude <= MAX_ORIGIN
        &&& -MAX_DISTANCE <= self.distance <= MAX_DISTANCE
        &&& self.longitude_scale <= MAX_LONGITUDE_SCALE
        &&& spec_derived_from(
            self,
            self.spec_origin(),
            self.distance as int,
            self.distance_unit,
            self.longitude_scale as int,
        )
    }
}

/// Whether every stored and cached field of `bounds` is exactly what
/// deriving a box from `origin`, `distance`, `unit` and `longitude_scale`
/// yields.
pub open spec fn spec_derived_from(
    bounds: CoordinateBoundaries,
    origin: Coordinate,
    distance: int,
    unit: DistanceUnit,
    longitude_scale: int,
) -> bool {
    &&& bounds.spec_latitude() == origin.latitude
    &&& bounds.spec_longitude() == origin.longitude
    &&& bounds.spec_distance() == distance
    &&& bounds.spec_distance_unit() == unit
    &&& bounds.spec_longitude_scale() == longitude_scale
    &&& bounds.spec_min_latitude() == origin.latitude - spec_latitude_delta(distance, unit)
    &&& bounds.spec_max_latitude() == origin.latitude + spec_latitude_delta(distance, unit)
    &&& bounds.spec_min_longitude() == origin.longitude - spec_longitude_delta(
        distance,
        unit,
        longitude_scale,
    )
    &&& bounds.spec_max_longitude() == origin.longitude + spec_longitude_delta(
        distance,
        unit,
        longitude_scale,
    )
}

impl CoordinateBoundaries {
    /// Creates a new `CoordinateBoundaries` around `origin`, reaching
    /// `distance` thousandths of `unit` (miles when `unit` is `None`) in
    /// each direction, with the longitude reach inflated by
    /// `longitude_scale` parts per million. Returns `None` exactly when the
    /// origin lies outside the legal latitude/longitude ranges.
    pub fn new(
        origin: Coordinate,
        distance: i64,
        unit: Option<DistanceUnit>,
        longitude_scale: u64,
    ) -> (result: Option<CoordinateBoundaries>)
        requires
            -MAX_DISTANCE <= distance <= MAX_DISTANCE,
            longitude_scale <= MAX_LONGITUDE_SCALE,
        ensures
            result is Some <==> spec_in_bounds(origin),
            (result matches Some(bounds) ==> (bounds.wf() && spec_derived_from(
                bounds,
                origin,
                distance as int,
                spec_unit_or_default(unit),
                longitude_scale as int,
            ))),
    {
        if !Self::validate(&origin) {
            return None;
        }
        let unit: DistanceUnit = match unit {
            Some(u) => u,
            None => DistanceUnit::Miles,
        };
        let (min_lat, max_lat, min_lon, max_lon): (i64, i64, i64, i64) = Self::calculate(
            &unit,
            distance,
            origin.latitude,
            origin.longitude,
            longitude_scale,
        );

        let to_return = CoordinateBoundaries {
            distance,
            distance_unit: unit,
            latitude: origin.latitude,
            longitude: origin.longitude,
            longitude_scale,
            max_lat,
            max_lon,
            min_lat,
            min_lon,
        };
        Some(to_return)
    }

    /// Returns the cached eastern bound of the box, in microdegrees.
    pub fn max_longitude(&self) -> (max_lon: i64)
        ensures
            max_lon == self.spec_max_longitude(),
    {
        self.max_lon
    }

    /// Returns the cached western bound of the box, in microdegrees.
    pub fn min_longitude(&self) -> (min_lon: i64)
        ensures
            min_lon == self.spec_min_longitude(),
    {
        self.min_lon
    }

    /// Returns the cached northern bound of the box, in microdegrees.
    pub fn max_latitude(&self) -> (max_lat: i64)
        ensures
            max_lat == self.spec_max_latitude(),
    {
        self.max_lat
    }

    /// Returns the cached southern bound of the box, in microdegrees.
    pub fn min_latitude(&self) -> (min_lat: i64)
        ensures
            min_lat == self.spec_min_latitude(),
    {
        self.min_lat
    }

    /// Replaces the origin, together with the longitude scale that belongs
    /// to the new latitude, and recomputes all four bounds with the stored
    /// distance and unit.
    pub fn set_coords(&mut self, coords: Coordinate, longitude_scale: u64)
        requires
            old(self).wf(),
            -MAX_ORIGIN <= coords.latitude <= MAX_ORIGIN,
            -MAX_ORIGIN <= coords.longitude <= MAX_ORIGIN,
            longitude_scale <= MAX_LONGITUDE_SCALE,
        ensures
            final(self).wf(),
            spec_derived_from(
                *final(self),
                coords,
                old(self).spec_distance() as int,
                old(self).spec_distance_unit(),
                longitude_scale as int,
            ),
    {
        self.latitude = coords.latitude;
        self.longitude = coords.longitude;
        self.longitude_scale = longitude_scale;
        let unit_now: DistanceUnit = self.distance_unit;
        let (min_lat, max_lat, min_lon, max_lon): (i64, i64, i64, i64) = Self::calculate(
            &unit_now,
            self.distance,
            coords.latitude,
            coords.longitude,
            longitude_scale,
        );
        self.min_lat = min_lat;
        self.max_lat = max_lat;
        self.min_lon = min_lon;
        self.max_lon = max_lon;
    }

    /// Replaces the distance and the unit — the unit is always reset to the
    /// passed value, or to miles when none is passed, never kept from an
    /// earlier call — and recomputes all four bounds with the stored origin
    /// and longitude scale.
    pub fn set_distance(&mut self, distance: i64, unit: Option<DistanceUnit>)
        requires
            old(self).wf(),
            -MAX_DISTANCE <= distance <= MAX_DISTANCE,
        ensures
            final(self).wf(),
            spec_derived_from(
                *final(self),
                old(self).spec_origin(),
                distance as int,
                spec_unit_or_default(unit),
                old(self).spec_longitude_scale() as int,
            ),
    {
        self.distance = distance;
        self.distance_unit = match unit {
            Some(u) => u,
            None => DistanceUnit::Miles,
        };
        let unit_now: DistanceUnit = self.distance_unit;
        let (min_lat, max_lat, min_lon, max_lon): (i64, i64, i64, i64) = Self::calculate(
            &unit_now,
            self.distance,
            self.latitude,
            self.longitude,
            self.longitude_scale,
        );
        self.min_lat = min_lat;
        self.max_lat = max_lat;
        self.min_lon = min_lon;
        self.max_lon = max_lon;
    }

    /// Derives the four bounds: the origin shifted south, north, west and
    /// east by the latitude and longitude deltas of the given distance,
    /// unit and longitude scale.
    fn calculate(
        unit: &DistanceUnit,
        distance: i64,
        lat: i64,
        lon: i64,
        longitude_scale: u64,
    ) -> (bounds: (i64, i64, i64, i64))
        requires
            -MAX_DISTANCE <= distance <= MAX_DISTANCE,
            longitude_scale <= MAX_LONGITUDE_SCALE,
            -MAX_ORIGIN <= lat <= MAX_ORIGIN,
            -MAX_ORIGIN <= lon <= MAX_ORIGIN,
        ensures
            bounds.0 == lat - spec_latitude_delta(distance as int, *unit),
            bounds.1 == lat + spec_latitude_delta(distance as int, *unit),
            bounds.2 == lon - spec_longitude_delta(
                distance as int,
                *unit,
                longitude_scale as int,
            ),
            bounds.3 == lon + spec_longitude_delta(
                distance as int,
                *unit,
                longitude_scale as int,
            ),
    {
        let div: u64 = utils::divisor(unit);
        proof {
            utils::lemma_divisor_bounds(*unit);
            lemma_mul_inequality(abs(distance as int) as int, MAX_DISTANCE as int, 1_000_000);
            lemma_mul_inequality(60_000, div as int, i64::MAX as int);
        }

        let latitude_conversion_factor: i64 = scaled_div(distance, 1_000_000, div);
        proof {
            lemma_div_is_ordered(
                abs(distance as int) as int * 1_000_000,
                100_000_000_000_000_000,
                div as int,
            );
            lemma_div_is_ordered_by_denominator(100_000_000_000_000_000, 60_000, div as int);
            assert(abs(latitude_conversion_factor as int) <= 1_666_666_666_666);
            lemma_mul_upper_bound(
                abs(latitude_conversion_factor as int) as int,
                1_666_666_666_666,
                longitude_scale as int,
                MAX_LONGITUDE_SCALE as int,
            );
        }

        let longitude_conversion_factor: i64 = scaled_div(
            latitude_conversion_factor,
            longitude_scale,
            LONGITUDE_SCALE_ONE,
        );
        proof {
            lemma_div_is_ordered(
                abs(latitude_conversion_factor as int) as int * (longitude_scale as int),
                166_666_666_666_600_000_000_000,
                1_000_000,
            );
            assert(abs(longitude_conversion_factor as int) <= 166_666_666_666_600_000);
        }

        let min_latitude: i64 = lat - latitude_conversion_factor;
        let max_latitude: i64 = lat + latitude_conversion_factor;

        let min_longitude: i64 = lon - longitude_conversion_factor;
        let max_longitude: i64 = lon + longitude_conversion_factor;
        (min_latitude, max_latitude, min_longitude, max_longitude)
    }

    /// Decides whether `coord` is a legal origin: latitude within ninety
    /// degrees of the equator and longitude within one hundred and eighty
    /// degrees of the prime meridian, boundaries included.
    fn validate(coord: &Coordinate) -> (valid: bool)
        ensures
            valid == spec_in_bounds(*coord),
    {
        if coord.latitude < -LATITUDE_BOUND || coord.latitude > LATITUDE_BOUND {
            return false;
        }
        if coord.longitude < -LONGITUDE_BOUND || coord.longitude > LONGITUDE_BOUND {
            return false;
        }

        return true;
    }
}

/// Divides `x * num` by `den`, truncating toward zero, with the whole
/// product formed in 128 bits so that no intermediate step can overflow.
fn scaled_div(x: i64, num: u64, den: u64) -> (r: i64)
    requires
        0 < den,
        abs(x as int) * (num as int) <= i64::MAX * (den as int),
    ensures
        r == spec_scaled_div(x as int, num as int, den as int),
        abs(r as int) == (abs(x as int) * (num as int)) / (den as int),
{
    let magnitude: i128 = if x >= 0 {
        x as i128
    } else {
        -(x as i128)
    };
    proof {
        assert(magnitude == abs(x as int));
        lemma_mul_upper_bound(
            magnitude as int,
            0x8000_0000_0000_0000,
            num as int,
            0xffff_ffff_ffff_ffff,
        );
        lemma_mul_nonnegative(magnitude as int, num as int);
    }
    let product: i128 = magnitude * (num as i128);
    let quotient: i128 = product / (den as i128);
    proof {
        lemma_div_pos_is_pos(product as int, den as int);
        lemma_div_is_ordered(product as int, i64::MAX * (den as int), den as int);
        lemma_div_multiples_vanish(i64::MAX as int, den as int);
        assert(0 <= quotient <= i64::MAX);
    }
    let magnitude_scaled: i64 = quotient as i64;
    if x >= 0 {
        magnitude_scaled
    } else {
        -magnitude_scaled
    }
}

} // verus!
