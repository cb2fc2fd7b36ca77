//! Trusted interface to the outside random-number generator.

use vstd::prelude::*;

verus! {

/// Relies on `rand::thread_rng` and `rand::Rng::fill` on a byte slice: the
/// buffer is filled from the generator's state, so nothing is promised of
/// the bytes beyond their number.
#[verifier::external_body]
pub(crate) fn random_bytes(len: usize) -> (r: Vec<u8>)
    ensures
        r@.len() == len,
{
    let mut v = vec![0u8; len];
    rand::Rng::fill(&mut rand::thread_rng(), v.as_mut_slice());
    v
}

} // verus!
