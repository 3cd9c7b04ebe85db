//! Random-number sources for the generators.
//!
//! Randomness comes from the `rand` crate's standard generator; the
//! library only ever asks it for an index below a bound, and every
//! contract downstream holds whatever index comes back.

use vstd::prelude::*;

use rand::RngExt;
use rand::SeedableRng;

verus! {

#[verifier::external_type_specification]
#[verifier::external_body]
pub struct ExStdRng(rand::rngs::StdRng);

/// Relies on rand's `make_rng`: a standard generator freshly seeded
/// from the operating system.  Nothing can be promised of its output;
/// it aborts only if the OS cannot supply entropy at all.
#[verifier::external_body]
pub(crate) fn fresh_rng() -> rand::rngs::StdRng {
    rand::make_rng()
}

/// Relies on rand_core's `SeedableRng::seed_from_u64`: a standard
/// generator deterministically expanded from one word.  Nothing is
/// promised of its output.
#[verifier::external_body]
pub(crate) fn seeded_rng(seed: u64) -> rand::rngs::StdRng {
    rand::rngs::StdRng::seed_from_u64(seed)
}

/// Relies on rand's `RngExt::random_range` over `0..n`: it panics on
/// an empty range (excluded here) and otherwise returns a value of the
/// range.
#[verifier::external_body]
pub(crate) fn rand_below(rng: &mut rand::rngs::StdRng, n: u64) -> (i: u64)
    requires
        n > 0,
    ensures
        i < n,
{
    rng.random_range(0..n)
}

} // verus!
