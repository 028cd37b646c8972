//! Standard base64, behind trusted wrappers.
//!
//! Refresh tokens are the base64 text of freshly drawn random bytes, and
//! password records store their salt and hash base64-encoded. The encoding
//! itself is done by the `base64` crate; its results are named here and the
//! round trip is stated, which is all the callers' contracts need.

use vstd::prelude::*;

verus! {

/// Standard (padded) base64 text of a byte string.
pub uninterp spec fn b64_of(bytes: Seq<u8>) -> Seq<char>;

/// What standard base64 decoding yields; `None` for text that is not a
/// well-formed encoding.
pub uninterp spec fn b64_decoded_of(text: Seq<char>) -> Option<Seq<u8>>;

/// Relies on base64's `Engine::encode` with the standard alphabet: the text
/// depends on the bytes alone, and `Engine::decode` yields the bytes back.
#[verifier::external_body]
pub fn b64_encode(bytes: &[u8]) -> (r: String)
    ensures
        r@ == b64_of(bytes@),
        b64_decoded_of(r@) == Some(bytes@),
{
    base64::Engine::encode(&base64::engine::general_purpose::STANDARD, bytes)
}

/// Relies on base64's `Engine::decode` with the standard alphabet: the result
/// depends on the text alone.
#[verifier::external_body]
pub fn b64_decode(text: &str) -> (r: Option<Vec<u8>>)
    ensures
        r matches Some(bytes) ==> b64_decoded_of(text@) == Some(bytes@),
        r is None ==> b64_decoded_of(text@) is None,
{
    match base64::Engine::decode(&base64::engine::general_purpose::STANDARD, text) {
        Ok(v) => Some(v),
        Err(_) => None,
    }
}

} // verus!
