use vstd::prelude::*;

verus! {

/// A unit in which a linear distance can be measured.
///
/// The unit is a stateless tag: it only selects a row of the conversion
/// table in [`crate::utils`].
#[derive(Debug, Clone, Copy, PartialEq, Eq, PartialOrd, Ord, Hash, Structural)]
pub enum DistanceUnit {
    Miles,
    NauticalMiles,
    Kilometers,
    Meters,
}

} // verus!
