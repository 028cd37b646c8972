//! Refresh coordinator.
//!
//! A session is renewed from its refresh token alone. The refresh record's
//! remaining time to live strictly determines the outcome:
//!
//! * no live record: the call yields nothing and the caller must
//!   authenticate from scratch;
//! * at least ten days remaining: a new access token only;
//! * less than ten days remaining: a new access token and a rotated refresh
//!   token with a fresh thirty-day record.
//!
//! Whenever a new access token is issued, the access token presented with
//! the call is revoked, so at most one access token per session is live from
//! the server's point of view. The old refresh record is never deleted:
//! renewal is additive, and a late duplicate refresh with the old token is
//! tolerated.

use vstd::prelude::*;
use crate::b64::b64_of;
use crate::codec::{
    create_access_token,
    create_refresh_token,
    jwt_claims_of,
    jwt_of,
    TokenError,
    ACCESS_TOKEN_TTL_SECS,
};
use crate::keys::{get_refresh_token_key, invalid_token_key_of, refresh_token_key_of};
use crate::session::{AuthError, AuthInfo};
use crate::store::{StoreError, StoreWrite};
use crate::text::{dec_chars_of, format_u64, parse_u64, parse_u64_model};
use crate::user_id::{uuid_chars_of, UserId};

verus! {

/// Refresh-token lifetime: thirty days, in seconds.
pub const REFRESH_TOKEN_TTL_SECS: u64 = 2592000;

/// Renewal threshold: within the last ten days of a refresh token's life a
/// refresh call also rotates the refresh token itself.
pub const REFRESH_ROTATION_THRESHOLD_SECS: u64 = 864000;

/// What a refresh call does, decided solely by the refresh record's
/// remaining time to live.
#[derive(Clone, Copy, PartialEq, Eq, Structural, Debug)]
pub enum RefreshCheckResult {
    /// Record found with at least the threshold remaining: re-issue the
    /// access token only.
    OnlyAccessToken,
    /// Record found inside the renewal window: re-issue the access token and
    /// rotate the refresh token.
    Both,
    /// No record: reject; the caller must authenticate from scratch.
    NoRecord,
}

/// The decision from a record's absolute expiry (if any) and the current
/// time.
pub open spec fn refresh_decision(expire_at: Option<int>, now: int) -> RefreshCheckResult {
    match expire_at {
        None => RefreshCheckResult::NoRecord,
        Some(e) => if e - now < REFRESH_ROTATION_THRESHOLD_SECS {
            RefreshCheckResult::Both
        } else {
            RefreshCheckResult::OnlyAccessToken
        },
    }
}

/// The decision from a raw record value as the store hands it back: a
/// missing record rejects, a well-formed decimal expiry decides by remaining
/// TTL, and a corrupt value is a store fault, never a decision.
pub open spec fn check_refresh_model(value: Option<Seq<char>>, now: int) -> Result<
    RefreshCheckResult,
    StoreError,
> {
    match value {
        None => Ok(RefreshCheckResult::NoRecord),
        Some(v) => match parse_u64_model(v) {
            Some(e) => Ok(refresh_decision(Some(e as int), now)),
            None => Err(StoreError),
        },
    }
}

/// Decide a refresh call from the raw refresh-record value.
pub fn check_refresh(record_value: Option<&str>, now: u64) -> (r: Result<
    RefreshCheckResult,
    StoreError,
>)
    ensures
        r == check_refresh_model(
            match record_value {
                Some(v) => Some(v@),
                None => None,
            },
            now as int,
        ),
{
    let v = match record_value {
        None => {
            return Ok(RefreshCheckResult::NoRecord);
        },
        Some(v) => v,
    };
    let expire_at = match parse_u64(v) {
        Some(e) => e,
        None => {
            return Err(StoreError);
        },
    };
    if expire_at < now || expire_at - now < REFRESH_ROTATION_THRESHOLD_SECS {
        Ok(RefreshCheckResult::Both)
    } else {
        Ok(RefreshCheckResult::OnlyAccessToken)
    }
}

/// The store write that registers a refresh token issued at `now`: the
/// record lives under the token's key, holds the absolute expiry as decimal
/// text, and expires exactly then.
pub fn register_refresh_token(refresh_token: &str, now: u64) -> (w: StoreWrite)
    requires
        now + REFRESH_TOKEN_TTL_SECS <= u64::MAX,
    ensures
        w.key@ == refresh_token_key_of(refresh_token@),
        w.value@ == dec_chars_of((now + REFRESH_TOKEN_TTL_SECS) as nat),
        w.expire_at == now + REFRESH_TOKEN_TTL_SECS,
{
    let expire_at = now + REFRESH_TOKEN_TTL_SECS;
    StoreWrite {
        key: get_refresh_token_key(refresh_token),
        value: format_u64(expire_at),
        expire_at,
    }
}

/// What a refresh call yields to the client.
pub struct RefreshResult {
    /// The freshly issued access token.
    pub access_token: String,
    /// The rotated refresh token; absent when the current one stays.
    pub refresh_token: Option<String>,
}

/// The store writes a refresh call asks for.
pub struct RefreshEffects {
    /// Revocation of the access token presented with the call.
    pub revoke_access: StoreWrite,
    /// Registration of the rotated refresh token, when one was issued.
    pub register_refresh: Option<StoreWrite>,
}

/// Why a refresh call failed.
#[derive(Clone, Copy, PartialEq, Eq, Structural, Debug)]
pub enum RefreshError {
    /// The session presented with the call is unusable.
    Auth(AuthError),
    /// Token issuance failed.
    Token(TokenError),
    /// The refresh record could not be read.
    Store(StoreError),
}

/// What a rotated refresh token and its registration write look like: a
/// fresh token of `refresh_size` random bytes, registered under its own key
/// with a thirty-day record.
pub open spec fn rotated_refresh_post(
    nt: Seq<char>,
    eff: RefreshEffects,
    refresh_size: int,
    now: int,
) -> bool {
    &&& (exists|bytes: Seq<u8>| bytes.len() == refresh_size && nt == b64_of(bytes))
    &&& (eff.register_refresh matches Some(w) && w.key@ == refresh_token_key_of(nt) && w.value@
        == dec_chars_of((now + REFRESH_TOKEN_TTL_SECS) as nat) && w.expire_at == now
        + REFRESH_TOKEN_TTL_SECS)
}

/// What a successful issuance (decision `OnlyAccessToken` or `Both`) yields:
/// an exact fresh access token for `uid`, revocation of the presented access
/// token with its own expiry, and rotation effects exactly when the decision
/// was `Both`.
pub open spec fn refresh_issue_post(
    res: RefreshResult,
    eff: RefreshEffects,
    auth: AuthInfo,
    uid: UserId,
    decision: RefreshCheckResult,
    secret: Seq<u8>,
    refresh_size: int,
    now: int,
) -> bool {
    &&& res.access_token@ == jwt_of(uuid_chars_of(uid.0), now + ACCESS_TOKEN_TTL_SECS, secret)
    &&& jwt_claims_of(res.access_token@, secret) == Some(
        (uuid_chars_of(uid.0), now + ACCESS_TOKEN_TTL_SECS),
    )
    &&& (auth.auth_token matches Some(t) && eff.revoke_access.key@ == invalid_token_key_of(t@)
        && eff.revoke_access.value@ == invalid_token_key_of(t@))
    &&& (auth.token_exp matches Some(xp) && eff.revoke_access.expire_at == xp)
    &&& (decision == RefreshCheckResult::OnlyAccessToken ==> res.refresh_token is None
        && eff.register_refresh is None)
    &&& (decision == RefreshCheckResult::Both ==> (res.refresh_token matches Some(nt)
        && rotated_refresh_post(nt@, eff, refresh_size, now)))
}

/// The full contract of `refresh_session` for a usable session `uid`. On the
/// `OnlyAccessToken` decision nothing is left to chance — no entropy is
/// drawn and signing cannot fail — so success is owed exactly when the
/// access-token expiry fits the clock's range; on `Both` the entropy source
/// may genuinely fail, so success there stays conditional.
pub open spec fn refresh_session_post(
    r: Result<Option<(RefreshResult, RefreshEffects)>, RefreshError>,
    auth: AuthInfo,
    uid: UserId,
    value: Option<Seq<char>>,
    secret: Seq<u8>,
    refresh_size: int,
    now: int,
) -> bool {
    match check_refresh_model(value, now) {
        Err(s) => r matches Err(x) && x == RefreshError::Store(s),
        Ok(decision) => if decision == RefreshCheckResult::NoRecord {
            r matches Ok(opt) && opt is None
        } else {
            &&& (decision == RefreshCheckResult::OnlyAccessToken ==> (r is Ok <==> now
                + ACCESS_TOKEN_TTL_SECS <= u64::MAX))
            &&& match r {
                Ok(opt) => match opt {
                    Some((res, eff)) => refresh_issue_post(
                        res,
                        eff,
                        auth,
                        uid,
                        decision,
                        secret,
                        refresh_size,
                        now,
                    ),
                    None => false,
                },
                Err(e) => e == RefreshError::Token(TokenError::TokenCreationFailed),
            }
        },
    }
}

/// Renew the session `auth` using the raw refresh-record value the store
/// returned for the presented refresh token.
///
/// The identity is the one the presented access token decoded to; whether
/// that token has been revoked in the meantime plays no part, so a refresh
/// token survives a logout and the refresh outcome is determined by the
/// refresh record's remaining TTL alone. On success the result either is
/// nothing (no live refresh record) or carries a fresh access token for the
/// session's identity together with the store writes to apply: the
/// presented access token is revoked with its own expiry, and, when the
/// decision was rotation, the new refresh token's thirty-day record is
/// registered. Issuance fails only on an overflowing clock value or, when
/// rotating, a failing entropy source.
pub fn refresh_session(
    auth: &AuthInfo,
    record_value: Option<&str>,
    secret: &[u8],
    refresh_size: usize,
    now: u64,
) -> (r: Result<Option<(RefreshResult, RefreshEffects)>, RefreshError>)
    requires
        auth.wf(),
    ensures
        auth.user_id is None ==> (r matches Err(x) && x == RefreshError::Auth(
            AuthError::NotAuthorized,
        )),
        auth.user_id matches Some(uid) ==> refresh_session_post(
            r,
            *auth,
            uid,
            match record_value {
                Some(v) => Some(v@),
                None => None,
            },
            secret@,
            refresh_size as int,
            now as int,
        ),
{
    let uid = match &auth.user_id {
        Some(u) => *u,
        None => {
            return Err(RefreshError::Auth(AuthError::NotAuthorized));
        },
    };
    let decision = match check_refresh(record_value, now) {
        Ok(d) => d,
        Err(s) => {
            return Err(RefreshError::Store(s));
        },
    };
    if let RefreshCheckResult::NoRecord = decision {
        return Ok(None);
    }
    let access_token = match create_access_token(&uid, secret, now) {
        Some(t) => t,
        None => {
            return Err(RefreshError::Token(TokenError::TokenCreationFailed));
        },
    };
    let revoke_access = match auth.invalidate() {
        Some(w) => w,
        None => {
            // A decoded identity always comes with its token and that
            // token's expiry, so there is always something to revoke.
            assert(false);
            return Err(RefreshError::Token(TokenError::TokenCreationFailed));
        },
    };
    match decision {
        RefreshCheckResult::Both => {
            if now > u64::MAX - REFRESH_TOKEN_TTL_SECS {
                // The rotated record's absolute expiry would overflow the
                // clock's range.
                return Err(RefreshError::Token(TokenError::TokenCreationFailed));
            }
            let new_refresh = match create_refresh_token(refresh_size) {
                Some(t) => t,
                None => {
                    return Err(RefreshError::Token(TokenError::TokenCreationFailed));
                },
            };
            let register = register_refresh_token(new_refresh.as_str(), now);
            Ok(
                Some(
                    (
                        RefreshResult { access_token, refresh_token: Some(new_refresh) },
                        RefreshEffects { revoke_access, register_refresh: Some(register) },
                    ),
                ),
            )
        },
        _ => Ok(
            Some(
                (
                    RefreshResult { access_token, refresh_token: None },
                    RefreshEffects { revoke_access, register_refresh: None },
                ),
            ),
        ),
    }
}

} // verus!
