//! The random numbers the game draws, from the thread's generator of `rand`.

use vstd::prelude::*;
use rand::Rng;
use rand::rngs::ThreadRng;

verus! {

#[verifier::external_type_specification]
#[verifier::external_body]
pub struct ExThreadRng(ThreadRng);

/// `rand::rng`: a handle to the generator of the current thread. Nothing is
/// claimed of it.
#[verifier::external_body]
pub(crate) fn thread_rng() -> ThreadRng {
    rand::rng()
}

/// `Rng::random_range` on the inclusive range `low..=high` of `u16`: it
/// panics on an empty range, so `requires` leaves that out, and otherwise
/// returns some value of the range; which one is left to chance.
#[verifier::external_body]
pub(crate) fn random_between(rng: &mut ThreadRng, low: u16, high: u16) -> (r: u16)
    requires
        low <= high,
    ensures
        low <= r <= high,
{
    rng.random_range(low..=high)
}

} // verus!
