//! The one source of randomness: a uniform draw below a bound, made by the
//! `rand` crate. Everything that consumes a draw is verified for every value
//! the draw could take.

use rand::Rng;
use vstd::prelude::*;

verus! {

/// Relies on `rand::thread_rng` and `rand::Rng::gen_range`: a draw from
/// `0..bound` lies below `bound`. `gen_range` panics on an empty range, so
/// the bound must be positive.
#[verifier::external_body]
pub(crate) fn random_below(bound: u32) -> (r: u32)
    requires
        1 <= bound,
    ensures
        r < bound,
{
    rand::thread_rng().gen_range(0..bound)
}

} // verus!
