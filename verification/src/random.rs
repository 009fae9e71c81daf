use rand::Rng;
use vstd::prelude::*;

verus! {

/// Draws a number from `low..high` with the thread-local generator:
/// `rand::thread_rng().gen_range(low..high)`, which panics on an empty range.
/// Claimed: the number lies in the range. Which number comes is chance and is
/// left unsaid.
#[verifier::external_body]
pub(crate) fn random_in_range(low: usize, high: usize) -> (r: usize)
    requires
        low < high,
    ensures
        low <= r < high,
{
    rand::thread_rng().gen_range(low..high)
}

/// Tosses a coin with the thread-local generator:
/// `rand::thread_rng().gen::<bool>()`. Either outcome can come; nothing is
/// claimed of it.
#[verifier::external_body]
pub(crate) fn random_bool() -> bool {
    rand::thread_rng().gen::<bool>()
}

} // verus!
