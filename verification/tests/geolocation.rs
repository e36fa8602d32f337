use geolocation_utils::coordinate_boundaries::{CoordinateBoundaries, LONGITUDE_SCALE_ONE};
use geolocation_utils::utils::{divisor, linear_divisor, wrap_to_bounds};
use geolocation_utils::{Coordinate, DistanceUnit};

#[test]
fn test_wrap_to_bounds() {
    let output: i64 = wrap_to_bounds(181, 90);
    assert_eq!(1, output);

    let output: i64 = wrap_to_bounds(91, 90);
    assert_eq!(-89, output);

    let output: i64 = wrap_to_bounds(181, 180);
    assert_eq!(-179, output);

    let output: i64 = wrap_to_bounds(120, 90);
    assert_eq!(-60, output);

    let output: i64 = wrap_to_bounds(-91, 90);
    assert_eq!(89, output);

    let output: i64 = wrap_to_bounds(-90, 90);
    assert_eq!(-90, output);

    let output: i64 = wrap_to_bounds(179, 90);
    assert_eq!(-1, output);
}

#[test]
fn test_wrap_identity_in_range() {
    assert_eq!(45, wrap_to_bounds(45, 90));
    assert_eq!(0, wrap_to_bounds(0, 90));
    assert_eq!(90, wrap_to_bounds(90, 90));
    assert_eq!(-90, wrap_to_bounds(-90, 90));
}

#[test]
fn test_wrap_periodic() {
    assert_eq!(wrap_to_bounds(37, 90), wrap_to_bounds(37 + 180, 90));
    assert_eq!(wrap_to_bounds(-60, 90), wrap_to_bounds(-60 + 180, 90));
    assert_eq!(wrap_to_bounds(170, 180), wrap_to_bounds(170 + 360, 180));
}

#[test]
fn test_divisor_table() {
    assert_eq!(69_000, divisor(&DistanceUnit::Miles));
    assert_eq!(60_000, divisor(&DistanceUnit::NauticalMiles));
    assert_eq!(111_045, divisor(&DistanceUnit::Kilometers));
    assert_eq!(111_045_000, divisor(&DistanceUnit::Meters));
}

#[test]
fn test_linear_divisor_table() {
    assert_eq!(1_609_000, linear_divisor(&DistanceUnit::Miles));
    assert_eq!(1_852_000, linear_divisor(&DistanceUnit::NauticalMiles));
    assert_eq!(1_000_000, linear_divisor(&DistanceUnit::Kilometers));
    assert_eq!(1_000, linear_divisor(&DistanceUnit::Meters));
}

#[test]
fn test_coordinate_new_keeps_in_range_values() {
    let coordinate = Coordinate::new(34_800_000, -2_800_000);
    assert_eq!(34_800_000, coordinate.latitude);
    assert_eq!(-2_800_000, coordinate.longitude);
}

#[test]
fn test_coordinate_new_wraps_overflowing_values() {
    let coordinate = Coordinate::new(91_627_500, -181_875_000);
    assert_eq!(-88_372_500, coordinate.latitude);
    assert_eq!(178_125_000, coordinate.longitude);
}

#[test]
fn test_boundaries_new_at_origin_is_symmetric() {
    let coords = Coordinate::new(0, 0);
    let bounds = CoordinateBoundaries::new(coords, 1_000, None, LONGITUDE_SCALE_ONE).unwrap();

    // one mile is 1/69 of a latitude degree: 14492 whole microdegrees
    assert_eq!(14_492, bounds.max_latitude());
    assert_eq!(-14_492, bounds.min_latitude());
    assert_eq!(14_492, bounds.max_longitude());
    assert_eq!(-14_492, bounds.min_longitude());
    assert_eq!(bounds.max_longitude(), -bounds.min_longitude());
}

#[test]
fn test_boundaries_new_rejects_invalid_origin() {
    let too_far_north = Coordinate { latitude: 91_000_000, longitude: 0 };
    assert!(CoordinateBoundaries::new(too_far_north, 1_000, None, LONGITUDE_SCALE_ONE).is_none());

    let too_far_east = Coordinate { latitude: 0, longitude: 181_000_000 };
    assert!(CoordinateBoundaries::new(too_far_east, 1_000, None, LONGITUDE_SCALE_ONE).is_none());
}

#[test]
fn test_boundaries_new_accepts_boundary_origin() {
    let corner = Coordinate { latitude: 90_000_000, longitude: 180_000_000 };
    assert!(CoordinateBoundaries::new(corner, 1_000, None, LONGITUDE_SCALE_ONE).is_some());
}

#[test]
fn test_set_distance_resets_unit_to_miles() {
    let coords = Coordinate::new(0, 0);
    let mut bounds = CoordinateBoundaries::new(
        coords,
        1_000,
        Some(DistanceUnit::Kilometers),
        LONGITUDE_SCALE_ONE,
    )
    .unwrap();

    // one kilometre is 1/111.045 of a latitude degree: 9005 microdegrees
    assert_eq!(9_005, bounds.max_latitude());
    assert_eq!(-9_005, bounds.min_latitude());

    // passing no unit falls back to miles even though kilometres were set
    bounds.set_distance(1_000, None);
    assert_eq!(14_492, bounds.max_latitude());
    assert_eq!(-14_492, bounds.min_latitude());
    assert_eq!(14_492, bounds.max_longitude());
    assert_eq!(-14_492, bounds.min_longitude());

    // passing a unit applies it
    bounds.set_distance(2_000, Some(DistanceUnit::Meters));
    assert_eq!(18, bounds.max_latitude());
    assert_eq!(-18, bounds.min_latitude());
}

#[test]
fn test_set_coords_recomputes_all_bounds() {
    let coords = Coordinate::new(0, 0);
    let mut bounds = CoordinateBoundaries::new(coords, 1_000, None, LONGITUDE_SCALE_ONE).unwrap();
    assert_eq!(-14_492, bounds.min_latitude());
    assert_eq!(-14_492, bounds.min_longitude());

    // at sixty degrees north a longitude degree is half length: scale two
    bounds.set_coords(Coordinate::new(60_000_000, 10_000_000), 2_000_000);
    assert_eq!(60_000_000 - 14_492, bounds.min_latitude());
    assert_eq!(60_000_000 + 14_492, bounds.max_latitude());
    assert_eq!(10_000_000 - 28_984, bounds.min_longitude());
    assert_eq!(10_000_000 + 28_984, bounds.max_longitude());
}

#[test]
fn test_negative_distance_crosses_bounds() {
    let coords = Coordinate::new(0, 0);
    let bounds = CoordinateBoundaries::new(coords, -1_000, None, LONGITUDE_SCALE_ONE).unwrap();
    assert_eq!(14_492, bounds.min_latitude());
    assert_eq!(-14_492, bounds.max_latitude());
    assert!(bounds.min_latitude() > bounds.max_latitude());
}
