//! The source of the draws: the thread-local generator of the `rand` crate.
//!
//! Nothing in this module is proved. Its contracts say what the `rand` crate
//! documents, and the rest of the library is verified against them.

use rand::Rng;
use rand::rngs::ThreadRng;
use vstd::prelude::*;

verus! {

/// `rand::rngs::ThreadRng`, the handle to the generator of the current
/// thread. Its state is opaque to the verifier.
#[verifier::external_type_specification]
#[verifier::external_body]
pub struct ExThreadRng(ThreadRng);

/// `rand::rng` hands out a handle to the generator of the current thread.
/// Nothing is claimed about the handle.
pub assume_specification[ rand::rng ]() -> (rng: ThreadRng);

/// `Rng::random_range` on the inclusive range `low..=high`: the value
/// returned lies in that range. Which value it is depends on the state of
/// the generator, so nothing more is claimed. `random_range` panics on an
/// empty range, so `low` must not exceed `high`.
#[verifier::external_body]
pub(crate) fn random_range(rng: &mut ThreadRng, low: usize, high: usize) -> (value: usize)
    requires
        low <= high,
    ensures
        low <= value <= high,
{
    rng.random_range(low..=high)
}

} // verus!
