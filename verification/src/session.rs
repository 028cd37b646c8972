//! Session verifier.
//!
//! Each request's `Authorization` header resolves to an authenticated
//! identity or to "anonymous", qualified by a revocation-store check:
//!
//! 1. a missing header, or one not of the form `Bearer <token>`, is
//!    anonymous;
//! 2. a token that fails decoding (malformed, bad signature, expired, or a
//!    subject that is not a canonical identity) is treated as "no
//!    credential", never as an error;
//! 3. a decoded token is checked against the store: a live revocation record
//!    means the credential was revoked; a store failure is reported as such
//!    (fail closed), never as anonymous or authenticated.

use vstd::prelude::*;
use vstd::string::StrSliceExecFns;
use crate::codec::{access_claims_model, decode_access};
use crate::keys::{get_invalid_token_key, invalid_token_key_of};
use crate::store::{store_live, SpecRecord, StoreError, StoreWrite};
use crate::user_id::{uuid_of_chars, UserId};

verus! {

/// Why `get_user_id` yields no identity: the request never carried a usable
/// credential, or it carried one that has been invalidated.
#[derive(Clone, Copy, PartialEq, Eq, Structural, Debug)]
pub enum AuthError {
    NotAuthorized,
    Invalidated,
}

impl AuthError {
    /// Human-readable description of this error.
    pub fn message(&self) -> (r: &'static str)
        ensures
            *self == AuthError::NotAuthorized ==> r@ == "Not authorized"@,
            *self == AuthError::Invalidated ==> r@ == "Invalidated auth token"@,
    {
        match self {
            AuthError::NotAuthorized => "Not authorized",
            AuthError::Invalidated => "Invalidated auth token",
        }
    }

    /// Stable machine code for this error.
    pub fn code(&self) -> (r: &'static str)
        ensures
            *self == AuthError::NotAuthorized ==> r@ == "AuthError::NotAuthorized"@,
            *self == AuthError::Invalidated ==> r@ == "AuthError::Invalidated"@,
    {
        match self {
            AuthError::NotAuthorized => "AuthError::NotAuthorized",
            AuthError::Invalidated => "AuthError::Invalidated",
        }
    }
}

/// The outcome of verifying one request.
#[derive(Clone, Copy, PartialEq, Eq, Structural, Debug)]
pub enum VerificationResult {
    /// A valid, unrevoked credential for this identity.
    Authenticated(UserId),
    /// No credential, or one that does not decode.
    Anonymous,
    /// A valid credential that has a live revocation record.
    Invalidated,
    /// The revocation check could not complete; the token is not verifiable.
    StoreError,
}

/// Per-request authentication state, derived once from the request's
/// `Authorization` header and never shared across requests.
pub struct AuthInfo {
    /// The identity the token decodes to, when it decodes.
    pub user_id: Option<UserId>,
    /// The raw bearer token, kept even when it does not decode.
    pub auth_token: Option<String>,
    /// The token's absolute expiry, when it decodes.
    pub token_exp: Option<u64>,
    /// Result of the revocation check: `Some(true)` means checked and clean,
    /// `Some(false)` means a revocation record was found, `None` means not
    /// (successfully) checked yet.
    pub valid: Option<bool>,
}

/// The token of a well-formed `Bearer` header.
pub open spec fn bearer_token_of(header: Seq<char>) -> Option<Seq<char>> {
    if header.len() >= 7 && header.subrange(0, 7) == "Bearer "@ {
        Some(header.skip(7))
    } else {
        None
    }
}

/// The identity and expiry a bearer token resolves to at time `now`:
/// signature, expiry and subject syntax must all pass.
pub open spec fn decoded_identity(token: Seq<char>, secret: Seq<u8>, now: int) -> Option<
    (UserId, int),
> {
    match access_claims_model(token, secret, now) {
        Some((sub, exp)) => match uuid_of_chars(sub) {
            Some(id) => Some((UserId(id), exp)),
            None => None,
        },
        None => None,
    }
}

/// What `AuthInfo::from_header` fills in, as a relation on the result.
pub open spec fn from_header_model(
    r: AuthInfo,
    header: Option<Seq<char>>,
    secret: Seq<u8>,
    now: int,
) -> bool {
    match header {
        Some(h) => match bearer_token_of(h) {
            Some(tok) => {
                &&& (r.auth_token matches Some(t) && t@ == tok)
                &&& r.valid is None
                &&& match decoded_identity(tok, secret, now) {
                    Some((id, exp)) => {
                        &&& r.user_id == Some(id)
                        &&& (r.token_exp matches Some(x) && x as int == exp)
                    },
                    None => r.user_id is None && r.token_exp is None,
                }
            },
            None => {
                &&& r.user_id is None
                &&& r.auth_token is None
                &&& r.token_exp is None
                &&& r.valid is None
            },
        },
        None => {
            &&& r.user_id is None
            &&& r.auth_token is None
            &&& r.token_exp is None
            &&& r.valid is None
        },
    }
}

/// What `AuthInfo::get_user_id` yields.
pub open spec fn get_user_id_model(a: AuthInfo) -> Result<UserId, AuthError> {
    if a.auth_token is None {
        Err(AuthError::NotAuthorized)
    } else if a.valid == Some(true) {
        match a.user_id {
            Some(id) => Ok(id),
            None => Err(AuthError::NotAuthorized),
        }
    } else {
        Err(AuthError::Invalidated)
    }
}

/// What `AuthInfo::verify` yields from a revocation lookup: `lookup` is the
/// store's answer to "does a revocation record for this token exist".
pub open spec fn verify_outcome_model(a: AuthInfo, lookup: Result<bool, StoreError>)
    -> VerificationResult {
    match a.user_id {
        None => VerificationResult::Anonymous,
        Some(id) => match lookup {
            Err(_) => VerificationResult::StoreError,
            Ok(true) => VerificationResult::Invalidated,
            Ok(false) => VerificationResult::Authenticated(id),
        },
    }
}

/// The whole verification pipeline against a store model: `store_ok` says
/// whether the store answered at all.
pub open spec fn verify_request_model(
    store: Map<Seq<char>, SpecRecord>,
    header: Option<Seq<char>>,
    secret: Seq<u8>,
    now: int,
    store_ok: bool,
) -> VerificationResult {
    match header {
        None => VerificationResult::Anonymous,
        Some(h) => match bearer_token_of(h) {
            None => VerificationResult::Anonymous,
            Some(tok) => match decoded_identity(tok, secret, now) {
                None => VerificationResult::Anonymous,
                Some((id, exp)) => if !store_ok {
                    VerificationResult::StoreError
                } else if store_live(store, invalid_token_key_of(tok), now) {
                    VerificationResult::Invalidated
                } else {
                    VerificationResult::Authenticated(id)
                },
            },
        },
    }
}

impl AuthInfo {
    /// Structural soundness: an identity is only ever recorded together with
    /// the token it was decoded from and that token's expiry.
    pub open spec fn wf(self) -> bool {
        self.user_id is Some ==> self.auth_token is Some && self.token_exp is Some
    }

    /// Derive the authentication state from a request's `Authorization`
    /// header value at time `now`. Never consults the store; `valid` starts
    /// undetermined.
    pub fn from_header(header: Option<String>, secret: &[u8], now: u64) -> (r: AuthInfo)
        ensures
            r.wf(),
            from_header_model(
                r,
                match header {
                    Some(h) => Some(h@),
                    None => None,
                },
                secret@,
                now as int,
            ),
    {
        let h = match header {
            Some(h) => h,
            None => {
                return AuthInfo { user_id: None, auth_token: None, token_exp: None, valid: None };
            },
        };
        let hs = h.as_str();
        let len = hs.unicode_len();
        if len < 7 {
            return AuthInfo { user_id: None, auth_token: None, token_exp: None, valid: None };
        }
        let is_bearer = hs.get_char(0) == 'B' && hs.get_char(1) == 'e' && hs.get_char(2) == 'a'
            && hs.get_char(3) == 'r' && hs.get_char(4) == 'e' && hs.get_char(5) == 'r'
            && hs.get_char(6) == ' ';
        proof {
            reveal_strlit("Bearer ");
        }
        if !is_bearer {
            proof {
                if h@.subrange(0, 7) == "Bearer "@ {
                    assert(h@.subrange(0, 7)[0] == h@[0]);
                    assert(h@.subrange(0, 7)[1] == h@[1]);
                    assert(h@.subrange(0, 7)[2] == h@[2]);
                    assert(h@.subrange(0, 7)[3] == h@[3]);
                    assert(h@.subrange(0, 7)[4] == h@[4]);
                    assert(h@.subrange(0, 7)[5] == h@[5]);
                    assert(h@.subrange(0, 7)[6] == h@[6]);
                    assert(false);
                }
            }
            return AuthInfo { user_id: None, auth_token: None, token_exp: None, valid: None };
        }
        assert(h@.subrange(0, 7) =~= "Bearer "@);
        let token = hs.substring_char(7, len).to_owned();
        assert(token@ =~= h@.skip(7));
        match decode_access(token.as_str(), secret, now) {
            Ok(c) => {
                match UserId::parse_str(c.sub.as_str()) {
                    Some(id) => AuthInfo {
                        user_id: Some(id),
                        auth_token: Some(token),
                        token_exp: Some(c.exp),
                        valid: None,
                    },
                    None => AuthInfo {
                        user_id: None,
                        auth_token: Some(token),
                        token_exp: None,
                        valid: None,
                    },
                }
            },
            Err(_) => AuthInfo {
                user_id: None,
                auth_token: Some(token),
                token_exp: None,
                valid: None,
            },
        }
    }

    /// The identity of a verified request; `NotAuthorized` when no usable
    /// credential was presented, `Invalidated` when the credential was
    /// revoked or its revocation check did not complete cleanly.
    pub fn get_user_id(&self) -> (r: Result<UserId, AuthError>)
        ensures
            r == get_user_id_model(*self),
    {
        if self.auth_token.is_none() {
            return Err(AuthError::NotAuthorized);
        }
        match self.valid {
            Some(true) => match self.user_id {
                Some(id) => Ok(id),
                None => Err(AuthError::NotAuthorized),
            },
            _ => Err(AuthError::Invalidated),
        }
    }

    /// The store key whose existence decides this request's validity: set
    /// exactly when the token decoded.
    pub fn revocation_check_key(&self) -> (r: Option<String>)
        ensures
            match self.auth_token {
                Some(t) => {
                    if self.user_id is Some {
                        r matches Some(k) && k@ == invalid_token_key_of(t@)
                    } else {
                        r is None
                    }
                },
                None => r is None,
            },
    {
        match (&self.user_id, &self.auth_token) {
            (Some(_), Some(t)) => Some(get_invalid_token_key(t.as_str())),
            _ => None,
        }
    }

    /// Fold the store's answer about the revocation record into this state.
    /// `lookup` is the store's answer for `revocation_check_key`; it is
    /// ignored for requests without a decoded token.
    pub fn verify(&mut self, lookup: Result<bool, StoreError>) -> (r: VerificationResult)
        ensures
            r == verify_outcome_model(*old(self), lookup),
            final(self).user_id == old(self).user_id,
            final(self).auth_token == old(self).auth_token,
            final(self).token_exp == old(self).token_exp,
            final(self).valid == (if old(self).user_id is Some {
                match lookup {
                    Ok(revoked) => Some(!revoked),
                    Err(_) => old(self).valid,
                }
            } else {
                old(self).valid
            }),
    {
        let id = match &self.user_id {
            None => {
                return VerificationResult::Anonymous;
            },
            Some(id) => *id,
        };
        match lookup {
            Err(_) => VerificationResult::StoreError,
            Ok(true) => {
                self.valid = Some(false);
                VerificationResult::Invalidated
            },
            Ok(false) => {
                self.valid = Some(true);
                VerificationResult::Authenticated(id)
            },
        }
    }

    /// The revocation write for this request's access token: key and value
    /// are the token's revocation key, and the record expires exactly when
    /// the token itself does, so a revoked token never outlives its own
    /// expiry in the store. Yields nothing when no decoded token is at hand.
    pub fn invalidate(&self) -> (r: Option<StoreWrite>)
        ensures
            match (self.auth_token, self.token_exp) {
                (Some(t), Some(exp)) => r matches Some(w) && w.key@ == invalid_token_key_of(t@)
                    && w.value@ == invalid_token_key_of(t@) && w.expire_at == exp,
                _ => r is None,
            },
    {
        match (&self.auth_token, &self.token_exp) {
            (Some(t), Some(exp)) => {
                let key = get_invalid_token_key(t.as_str());
                let value = key.clone();
                Some(StoreWrite { key, value, expire_at: *exp })
            },
            _ => None,
        }
    }
}

} // verus!
