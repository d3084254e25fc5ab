//! Random numbers from the thread's generator.

use rand::{Rng, RngExt};

use vstd::prelude::*;

verus! {

/// `Rng::fill_bytes` on the generator of `rand::rng`: every byte of the buffer is replaced by a
/// random one, and the buffer keeps its length. Nothing is claimed of the bytes.
#[verifier::external_body]
pub(crate) fn fill_with_random_bytes(buffer: &mut [u8])
    ensures
        final(buffer)@.len() == old(buffer)@.len(),
{
    rand::rng().fill_bytes(buffer);
}

/// `RngExt::random_range` on the generator of `rand::rng`: a random number from 0 up to, but not
/// with, `bound`. The call panics on an empty range, so `bound` is positive.
#[verifier::external_body]
pub(crate) fn random_below(bound: u64) -> (number: u64)
    requires
        bound > 0,
    ensures
        number < bound,
{
    rand::rng().random_range(0..bound)
}

} // verus!
