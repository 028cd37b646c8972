//! The system's secure random source, behind a trusted wrapper.

use vstd::prelude::*;

verus! {

/// Relies on ring's `SystemRandom::fill`: on success the buffer holds freshly
/// drawn cryptographically secure bytes. The buffer keeps its length either
/// way; nothing is promised of the drawn values.
#[verifier::external_body]
pub fn fill_random(buf: &mut Vec<u8>) -> (ok: bool)
    ensures
        final(buf)@.len() == old(buf)@.len(),
{
    let rng = ring::rand::SystemRandom::new();
    ring::rand::SecureRandom::fill(&rng, buf.as_mut_slice()).is_ok()
}

} // verus!
