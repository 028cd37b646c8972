//! Token codec.
//!
//! Access tokens are HS512-signed JWTs with claims `{sub, exp}`: `sub` is the
//! canonical text of the issuing identity, `exp` the absolute expiry in epoch
//! seconds. Refresh tokens are the base64 text of freshly drawn random bytes.
//!
//! Signing and signature checking are done by the `jsonwebtoken` crate behind
//! trusted wrappers. The token text of given claims is named [`jwt_of`], the
//! (deterministic, clock-free) outcome of signature checking and claim
//! extraction is named [`jwt_claims_of`], and the encode wrapper states the
//! round trip between the two. The expiry check itself is verified code:
//! [`decode_access`] takes the current time as an argument.

use vstd::prelude::*;
use jsonwebtoken::errors::ErrorKind;
use jsonwebtoken::{Algorithm, DecodingKey, EncodingKey, Header, Validation};
use crate::b64::{b64_of, b64_encode};
use crate::random::fill_random;
use crate::user_id::{uuid_chars_of, UserId};

verus! {

/// Access-token lifetime: one hour, in seconds.
pub const ACCESS_TOKEN_TTL_SECS: u64 = 3600;

/// The claims carried by an access token.
#[derive(Debug, PartialEq, Eq)]
pub struct Claims {
    /// Canonical text of the subject identity.
    pub sub: String,
    /// Absolute expiry, epoch seconds.
    pub exp: u64,
}

/// Why a bearer token was rejected. Decode failures are collapsed to an
/// anonymous result at the verifier boundary and never surface to callers.
#[derive(Clone, Copy, PartialEq, Eq, Structural, Debug)]
pub enum DecodeError {
    MalformedToken,
    SignatureInvalid,
    Expired,
}

/// Token issuance failure: the entropy source failed or the expiry
/// computation overflowed the clock's range.
#[derive(Clone, Copy, PartialEq, Eq, Structural, Debug)]
pub enum TokenError {
    TokenCreationFailed,
}

impl TokenError {
    /// Human-readable description of this error.
    pub fn message(&self) -> (r: &'static str)
        ensures
            r@ == "Token creation failed"@,
    {
        "Token creation failed"
    }

    /// Stable machine code for this error.
    pub fn code(&self) -> (r: &'static str)
        ensures
            r@ == "TokenError::TokenCreationFailed"@,
    {
        "TokenError::TokenCreationFailed"
    }
}

/// The HS512 JWT text for claims `{sub, exp}` signed with `secret`.
pub uninterp spec fn jwt_of(sub: Seq<char>, exp: int, secret: Seq<u8>) -> Seq<char>;

/// The clock-free decode outcome for a token under `secret`: the `(sub, exp)`
/// claims if the token is well-formed and its HS512 signature matches,
/// `None` otherwise.
pub uninterp spec fn jwt_claims_of(token: Seq<char>, secret: Seq<u8>) -> Option<(Seq<char>, int)>;

/// Relies on jsonwebtoken's `encode` with HS512: the token depends only on
/// the claims and the secret, and `decode` under the same secret yields the
/// claims back. The call cannot fail here: for an HMAC key the key family
/// always matches the header's algorithm, HMAC signing itself is infallible,
/// and serializing a JSON object with string keys never errors.
#[verifier::external_body]
fn encode_hs512(sub: &str, exp: u64, secret: &[u8]) -> (r: String)
    ensures
        r@ == jwt_of(sub@, exp as int, secret@),
        jwt_claims_of(r@, secret@) == Some((sub@, exp as int)),
{
    let header = Header::new(Algorithm::HS512);
    let mut claims = serde_json::Map::new();
    claims.insert("sub".to_string(), serde_json::Value::String(sub.to_string()));
    claims.insert("exp".to_string(), serde_json::Value::from(exp));
    let key = EncodingKey::from_secret(secret);
    jsonwebtoken::encode(&header, &serde_json::Value::Object(claims), &key).unwrap()
}

/// Relies on jsonwebtoken's `decode` with HS512 and expiry validation turned
/// off: the outcome depends only on the token and the secret, and the call
/// distinguishes a failed signature check from any other rejection.
#[verifier::external_body]
fn decode_hs512(token: &str, secret: &[u8]) -> (r: Result<Claims, DecodeError>)
    ensures
        r matches Ok(c) ==> jwt_claims_of(token@, secret@) == Some((c.sub@, c.exp as int)),
        r matches Err(e) ==> {
            &&& jwt_claims_of(token@, secret@) is None
            &&& (e == DecodeError::MalformedToken || e == DecodeError::SignatureInvalid)
        },
{
    let mut validation = Validation::new(Algorithm::HS512);
    validation.validate_exp = false;
    validation.required_spec_claims = std::collections::HashSet::new();
    let key = DecodingKey::from_secret(secret);
    let data = match jsonwebtoken::decode::<serde_json::Value>(token, &key, &validation) {
        Ok(d) => d.claims,
        Err(e) if matches!(e.kind(), ErrorKind::InvalidSignature) => return Err(DecodeError::SignatureInvalid),
        Err(_) => return Err(DecodeError::MalformedToken),
    };
    match (data.get("sub").and_then(|x| x.as_str()), data.get("exp").and_then(|x| x.as_u64())) {
        (Some(sub), Some(exp)) => Ok(Claims { sub: sub.to_string(), exp }),
        _ => Err(DecodeError::MalformedToken),
    }
}

/// Issue an access token for `user` expiring one hour after `now`.
///
/// Fails exactly when the expiry computation overflows the clock's range;
/// the signing call itself cannot fail.
pub fn create_access_token(user: &UserId, secret: &[u8], now: u64) -> (r: Option<String>)
    ensures
        now + ACCESS_TOKEN_TTL_SECS <= u64::MAX ==> (r matches Some(t) && {
            &&& t@ == jwt_of(uuid_chars_of(user.0), now + ACCESS_TOKEN_TTL_SECS, secret@)
            &&& jwt_claims_of(t@, secret@) == Some(
                (uuid_chars_of(user.0), now + ACCESS_TOKEN_TTL_SECS as int),
            )
        }),
        now + ACCESS_TOKEN_TTL_SECS > u64::MAX ==> r is None,
{
    let exp = match now.checked_add(ACCESS_TOKEN_TTL_SECS) {
        Some(e) => e,
        None => {
            return None;
        },
    };
    let sub = user.to_uuid_string();
    Some(encode_hs512(sub.as_str(), exp, secret))
}

/// Generate an opaque refresh token: `size` freshly drawn random bytes,
/// base64-encoded. Fails only when the entropy source fails.
pub fn create_refresh_token(size: usize) -> (r: Option<String>)
    ensures
        r matches Some(t) ==> exists|bytes: Seq<u8>|
            bytes.len() == size as int && t@ == b64_of(bytes),
{
    let mut buf: Vec<u8> = Vec::new();
    while buf.len() < size
        invariant
            buf@.len() <= size,
        decreases size - buf@.len(),
    {
        buf.push(0u8);
    }
    if !fill_random(&mut buf) {
        return None;
    }
    let t = b64_encode(buf.as_slice());
    assert(buf@.len() == size as int && t@ == b64_of(buf@));
    Some(t)
}

/// The claims a token yields under `secret` at time `now`: its signed claims
/// when the signature matches and the token has not expired.
pub open spec fn access_claims_model(token: Seq<char>, secret: Seq<u8>, now: int) -> Option<
    (Seq<char>, int),
> {
    match jwt_claims_of(token, secret) {
        Some((sub, exp)) => if exp > now {
            Some((sub, exp))
        } else {
            None
        },
        None => None,
    }
}

/// Decode an access token: signature check, claim extraction, and expiry
/// check against `now`. Exactly the tokens that some identity's
/// `create_access_token` produced under the same secret, and whose expiry
/// lies after `now`, are accepted.
pub fn decode_access(token: &str, secret: &[u8], now: u64) -> (r: Result<Claims, DecodeError>)
    ensures
        r matches Ok(c) ==> {
            &&& access_claims_model(token@, secret@, now as int) == Some((c.sub@, c.exp as int))
            &&& c.exp > now
        },
        r matches Err(e) ==> access_claims_model(token@, secret@, now as int) is None,
        r matches Err(e) ==> match e {
            DecodeError::Expired => jwt_claims_of(token@, secret@) matches Some(se) && se.1
                <= now as int,
            _ => jwt_claims_of(token@, secret@) is None,
        },
{
    match decode_hs512(token, secret) {
        Ok(c) => {
            if c.exp > now {
                Ok(c)
            } else {
                Err(DecodeError::Expired)
            }
        },
        Err(e) => Err(e),
    }
}

} // verus!
