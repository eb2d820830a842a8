//! The library's single source of randomness: food spawn coordinates.

use vstd::prelude::*;

verus! {

/// Relies on `rand::random_range`: a sample from the half-open range
/// `0..bound`, so the result lies within the field axis it is drawn for.
/// `random_range` panics only on an empty range, which `bound > 0` rules out.
#[verifier::external_body]
pub(crate) fn random_coordinate(bound: i32) -> (r: i32)
    requires
        bound > 0,
    ensures
        0 <= r < bound,
{
    rand::random_range(0..bound)
}

} // verus!
