use vstd::prelude::*;

use crate::distance_unit::DistanceUnit;
use vstd::math::abs;

verus! {

// Length of one degree of latitude, measured in each unit and carried in
// thousandths of that unit (so `69_000` stands for 69 units to the degree).
pub const LATITUDE_DISTANCE_IN_MILES: u64 = 69_000;
pub const LATITUDE_DISTANCE_IN_NAUTICAL_MILES: u64 = 60_000;
pub const LATITUDE_DISTANCE_IN_KILOMETERS: u64 = 111_045;
pub const LATITUDE_DISTANCE_IN_METERS: u64 = 111_045_000;

// Length of one whole unit of each kind, in millimetres: the metre count of
// a unit carried in thousandths, so that dividing a metre distance by the
// unit's entry over a thousand turns it into that unit.
pub const LINEAR_DISTANCE_IN_MILES: u64 = 1_609_000;
pub const LINEAR_DISTANCE_IN_NAUTICAL_MILES: u64 = 1_852_000;
pub const LINEAR_DISTANCE_IN_KILOMETERS: u64 = 1_000_000;
pub const LINEAR_DISTANCE_IN_METERS: u64 = 1_000;

/// The length of one degree of latitude in `unit`, in thousandths of a unit.
pub open spec fn spec_divisor(unit: DistanceUnit) -> u64 {
    match unit {
        DistanceUnit::Miles => LATITUDE_DISTANCE_IN_MILES,
        DistanceUnit::NauticalMiles => LATITUDE_DISTANCE_IN_NAUTICAL_MILES,
        DistanceUnit::Kilometers => LATITUDE_DISTANCE_IN_KILOMETERS,
        DistanceUnit::Meters => LATITUDE_DISTANCE_IN_METERS,
    }
}

/// The length of one whole `unit`, in millimetres.
pub open spec fn spec_linear_divisor(unit: DistanceUnit) -> u64 {
    match unit {
        DistanceUnit::Miles => LINEAR_DISTANCE_IN_MILES,
        DistanceUnit::NauticalMiles => LINEAR_DISTANCE_IN_NAUTICAL_MILES,
        DistanceUnit::Kilometers => LINEAR_DISTANCE_IN_KILOMETERS,
        DistanceUnit::Meters => LINEAR_DISTANCE_IN_METERS,
    }
}

/// Looks up the latitude-degree divisor of `unit`: how long one degree of
/// latitude is in that unit, in thousandths of a unit.
pub fn divisor(unit: &DistanceUnit) -> (d: u64)
    ensures
        d == spec_divisor(*unit),
{
    match unit {
        DistanceUnit::Miles => LATITUDE_DISTANCE_IN_MILES,
        DistanceUnit::NauticalMiles => LATITUDE_DISTANCE_IN_NAUTICAL_MILES,
        DistanceUnit::Kilometers => LATITUDE_DISTANCE_IN_KILOMETERS,
        DistanceUnit::Meters => LATITUDE_DISTANCE_IN_METERS,
    }
}

/// Looks up the linear divisor of `unit`: the length of one whole unit, in
/// millimetres.
pub fn linear_divisor(unit: &DistanceUnit) -> (d: u64)
    ensures
        d == spec_linear_divisor(*unit),
{
    match unit {
        DistanceUnit::Miles => LINEAR_DISTANCE_IN_MILES,
        DistanceUnit::NauticalMiles => LINEAR_DISTANCE_IN_NAUTICAL_MILES,
        DistanceUnit::Kilometers => LINEAR_DISTANCE_IN_KILOMETERS,
        DistanceUnit::Meters => LINEAR_DISTANCE_IN_METERS,
    }
}

/// Every latitude-degree divisor lies between the nautical-mile and the
/// metre entry of the table.
pub proof fn lemma_divisor_bounds(unit: DistanceUnit)
    ensures
        60_000 <= spec_divisor(unit) <= 111_045_000,
{
}

/// The representative of `value` under the period `2 * bound`, landing in
/// `[-bound, bound]`: values above the bound are shifted down a whole number
/// of periods into `(-bound, bound]`, values below it are shifted up into
/// `[-bound, bound)`, and values already in range are left exactly as they
/// are, the boundary values included.
pub open spec fn spec_wrap_to_bounds(value: int, bound: int) -> int
    recommends
        bound > 0,
    decreases abs(value) when bound > 0
{
    if value < -bound {
        spec_wrap_to_bounds(value + 2 * bound, bound)
    } else if value > bound {
        spec_wrap_to_bounds(value - 2 * bound, bound)
    } else {
        value
    }
}

/// Wrapping never leaves the closed range `[-bound, bound]`.
pub proof fn lemma_wrap_in_range(value: int, bound: int)
    requires
        bound > 0,
    ensures
        -bound <= spec_wrap_to_bounds(value, bound) <= bound,
    decreases abs(value),
{
    if value < -bound {
        lemma_wrap_in_range(value + 2 * bound, bound);
    } else if value > bound {
        lemma_wrap_in_range(value - 2 * bound, bound);
    }
}

/// Wrapping is the identity on values already in range: an in-range angle,
/// the boundary values included, comes back unchanged.
pub proof fn lemma_wrap_identity(value: int, bound: int)
    requires
        bound > 0,
        -bound <= value <= bound,
    ensures
        spec_wrap_to_bounds(value, bound) == value,
{
}

/// Wrapping is periodic: shifting the input by one full period leaves the
/// result unchanged. The single exception is the lower boundary itself,
/// which stays put while its shifted image is the upper boundary.
pub proof fn lemma_wrap_periodic(value: int, bound: int)
    requires
        bound > 0,
        value != -bound,
    ensures
        spec_wrap_to_bounds(value + 2 * bound, bound) == spec_wrap_to_bounds(value, bound),
{
    if value < -bound {
        // spec_wrap_to_bounds(value, bound) unfolds to the shifted call.
        assert(spec_wrap_to_bounds(value, bound) == spec_wrap_to_bounds(value + 2 * bound, bound));
    } else if value > bound {
        assert(spec_wrap_to_bounds(value + 2 * bound, bound) == spec_wrap_to_bounds(value, bound));
    } else {
        assert(value + 2 * bound > bound);
        assert(spec_wrap_to_bounds(value + 2 * bound, bound) == spec_wrap_to_bounds(value, bound));
    }
}

/// `value` shifted by `k` whole periods of `2 * bound`.
pub open spec fn spec_shifted_periods(value: int, bound: int, k: int) -> int {
    value + 2 * bound * k
}

/// Wrapping only ever shifts its input by whole periods: the result differs
/// from the input by some multiple of `2 * bound`.
pub proof fn lemma_wrap_congruent(value: int, bound: int)
    requires
        bound > 0,
    ensures
        exists|k: int|
            spec_wrap_to_bounds(value, bound) == #[trigger] spec_shifted_periods(value, bound, k),
    decreases abs(value),
{
    if value < -bound {
        lemma_wrap_congruent(value + 2 * bound, bound);
        let k0 = choose|k: int|
            spec_wrap_to_bounds(value + 2 * bound, bound) == #[trigger] spec_shifted_periods(
                value + 2 * bound,
                bound,
                k,
            );
        assert(2 * bound * (k0 + 1) == 2 * bound + 2 * bound * k0) by (nonlinear_arith);
        assert(spec_wrap_to_bounds(value, bound) == spec_shifted_periods(value, bound, k0 + 1));
    } else if value > bound {
        lemma_wrap_congruent(value - 2 * bound, bound);
        let k0 = choose|k: int|
            spec_wrap_to_bounds(value - 2 * bound, bound) == #[trigger] spec_shifted_periods(
                value - 2 * bound,
                bound,
                k,
            );
        assert(2 * bound * (k0 - 1) == 2 * bound * k0 - 2 * bound) by (nonlinear_arith);
        assert(spec_wrap_to_bounds(value, bound) == spec_shifted_periods(value, bound, k0 - 1));
    } else {
        assert(spec_wrap_to_bounds(value, bound) == spec_shifted_periods(value, bound, 0));
    }
}

/// Wraps `input` into the closed range `[-neg_pos_bound, neg_pos_bound]` by
/// shifting it whole periods of `2 * neg_pos_bound` at a time, never by
/// clamping: an out-of-range angle comes out on the far side of the range,
/// the way a heading wraps around a circle.
pub fn wrap_to_bounds(input: i64, neg_pos_bound: i64) -> (wrapped: i64)
    requires
        0 < neg_pos_bound <= 0x3fff_ffff_ffff_ffff,
    ensures
        wrapped == spec_wrap_to_bounds(input as int, neg_pos_bound as int),
        -neg_pos_bound <= wrapped <= neg_pos_bound,
{
    let add_or_sub: i64 = neg_pos_bound * 2;
    let mut wrapped: i64 = input;

    while wrapped < -neg_pos_bound || wrapped > neg_pos_bound
        invariant
            0 < neg_pos_bound <= 0x3fff_ffff_ffff_ffff,
            add_or_sub == 2 * neg_pos_bound,
            spec_wrap_to_bounds(wrapped as int, neg_pos_bound as int)
                == spec_wrap_to_bounds(input as int, neg_pos_bound as int),
        decreases abs(wrapped as int),
    {
        if wrapped < -neg_pos_bound {
            wrapped = wrapped + add_or_sub;
        } else {
            wrapped = wrapped - add_or_sub;
        }
    }

    wrapped
}

} // verus!
