//! The source of randomness: the thread-local generator of the `rand` crate.
//!
//! Nothing here is proved. Each function states what holds of every value
//! that the generator can hand back; which value comes is chance.

use rand::Rng;
use vstd::prelude::*;
use crate::classes::alphanumeric_ascii;

verus! {

/// Draws an index from 0 to `high`, both included, each with the same chance:
/// `Rng::sample` on `rand::thread_rng()` with the distribution
/// `Uniform::new_inclusive(0, high)`. The contract claims only that the
/// index is not above `high`.
#[verifier::external_body]
pub(crate) fn uniform_index(high: usize) -> (i: usize)
    ensures
        i <= high,
{
    rand::thread_rng().sample(rand::distributions::Uniform::new_inclusive(0usize, high))
}

/// Draws one byte with the distribution `rand::distributions::Alphanumeric`
/// from `rand::thread_rng()`. The contract claims that the byte is an ASCII
/// letter or digit, which is all that distribution yields.
#[verifier::external_body]
pub(crate) fn alphanumeric_byte() -> (b: u8)
    ensures
        alphanumeric_ascii(b as char),
{
    rand::thread_rng().sample(rand::distributions::Alphanumeric)
}

} // verus!
