//! Protocol laws.
//!
//! The engine's guarantees that span several operations, stated against the
//! store model and proved from the contracts the operations themselves
//! carry. The executable functions' `ensures` tie each step to the model
//! pieces these lemmas speak of; [`lemma_pipeline_matches_model`] closes the
//! loop between the two-step executable verification pipeline and the
//! one-shot model verdict.

use vstd::prelude::*;
use crate::codec::{jwt_claims_of, ACCESS_TOKEN_TTL_SECS};
use crate::keys::{invalid_token_key_of, lemma_key_namespaces_disjoint, refresh_token_key_of};
use crate::refresh::{
    check_refresh_model,
    RefreshCheckResult,
    REFRESH_ROTATION_THRESHOLD_SECS,
};
use crate::session::{
    bearer_token_of,
    decoded_identity,
    from_header_model,
    verify_outcome_model,
    verify_request_model,
    AuthInfo,
    VerificationResult,
};
use crate::store::{store_apply, store_get, store_live, SpecRecord, StoreError, StoreWrite};
use crate::text::{dec_chars_of, lemma_decimal_round_trip};
use crate::user_id::{lemma_uuid_round_trip, uuid_chars_of, UserId};

verus! {

/// A `Bearer` header built from a token yields back exactly that token.
pub proof fn lemma_bearer_header_round_trip(token: Seq<char>)
    ensures
        bearer_token_of("Bearer "@ + token) == Some(token),
{
    reveal_strlit("Bearer ");
    let h = "Bearer "@ + token;
    assert(h.subrange(0, 7) =~= "Bearer "@);
    assert(h.skip(7) =~= token);
}

/// Logging in authenticates at once: for every identity, verifying the
/// header `Bearer <access token>` immediately after login yields
/// `Authenticated` with exactly that identity — provided the store answered
/// and holds no revocation record for the fresh token.
///
/// The first premise is what `create_login_result` ensures of the access
/// token it hands out at time `now`.
pub proof fn lemma_login_then_verify(
    store: Map<Seq<char>, SpecRecord>,
    u: UserId,
    access: Seq<char>,
    secret: Seq<u8>,
    now: int,
)
    requires
        jwt_claims_of(access, secret) == Some(
            (uuid_chars_of(u.0), now + ACCESS_TOKEN_TTL_SECS),
        ),
        !store_live(store, invalid_token_key_of(access), now),
    ensures
        verify_request_model(store, Some("Bearer "@ + access), secret, now, true)
            == VerificationResult::Authenticated(u),
{
    lemma_bearer_header_round_trip(access);
    lemma_uuid_round_trip(u.0);
}

/// Logging out invalidates at once: after applying the revocation write that
/// `invalidate` builds for a still-valid access token, verifying that token
/// yields `Invalidated` — even though its signature and expiry are still
/// individually valid.
///
/// The premises on `w` are what `invalidate` ensures of the write it builds
/// for this token, and the subject premise says the token decodes to some
/// identity at all (otherwise verification is `Anonymous` with or without
/// the record).
pub proof fn lemma_logout_then_verify(
    store: Map<Seq<char>, SpecRecord>,
    access: Seq<char>,
    secret: Seq<u8>,
    now: int,
    w: StoreWrite,
)
    requires
        decoded_identity(access, secret, now) is Some,
        jwt_claims_of(access, secret) matches Some(se) && w.expire_at as int == se.1,
        w.key@ == invalid_token_key_of(access),
    ensures
        verify_request_model(store_apply(store, w), Some("Bearer "@ + access), secret, now, true)
            == VerificationResult::Invalidated,
{
    lemma_bearer_header_round_trip(access);
    assert(store_live(store_apply(store, w), invalid_token_key_of(access), now));
}

/// A refresh call against an unknown or expired refresh token always decides
/// `NoRecord`: the caller gets nothing and must authenticate from scratch.
pub proof fn lemma_refresh_unknown_token(
    store: Map<Seq<char>, SpecRecord>,
    refresh_token: Seq<char>,
    now: int,
)
    requires
        !store_live(store, refresh_token_key_of(refresh_token), now),
    ensures
        check_refresh_model(store_get(store, refresh_token_key_of(refresh_token), now), now)
            == Ok::<RefreshCheckResult, StoreError>(RefreshCheckResult::NoRecord),
{
}

/// A refresh call on a record with at least ten days of life left decides
/// `OnlyAccessToken`: the refresh token is kept. (`refresh_session`'s
/// contract then pins the response's refresh token to be absent.)
pub proof fn lemma_refresh_keeps_young_token(
    store: Map<Seq<char>, SpecRecord>,
    refresh_token: Seq<char>,
    expire_at: u64,
    now: int,
)
    requires
        store_get(store, refresh_token_key_of(refresh_token), now) == Some(
            dec_chars_of(expire_at as nat),
        ),
        expire_at - now >= REFRESH_ROTATION_THRESHOLD_SECS,
    ensures
        check_refresh_model(store_get(store, refresh_token_key_of(refresh_token), now), now)
            == Ok::<RefreshCheckResult, StoreError>(RefreshCheckResult::OnlyAccessToken),
{
    lemma_decimal_round_trip(expire_at);
}

/// A refresh call on a record inside the ten-day renewal window decides
/// `Both`: the refresh token is rotated. (`refresh_session`'s contract then
/// pins the response to carry a freshly drawn refresh token and its
/// registration write.)
pub proof fn lemma_refresh_rotates_old_token(
    store: Map<Seq<char>, SpecRecord>,
    refresh_token: Seq<char>,
    expire_at: u64,
    now: int,
)
    requires
        store_get(store, refresh_token_key_of(refresh_token), now) == Some(
            dec_chars_of(expire_at as nat),
        ),
        expire_at - now < REFRESH_ROTATION_THRESHOLD_SECS,
    ensures
        check_refresh_model(store_get(store, refresh_token_key_of(refresh_token), now), now)
            == Ok::<RefreshCheckResult, StoreError>(RefreshCheckResult::Both),
{
    lemma_decimal_round_trip(expire_at);
}

/// Revoking an access token never touches refresh records: the two key
/// namespaces are disjoint, so a refresh call sees the same record before
/// and after any revocation write.
pub proof fn lemma_revocation_leaves_refresh_records(
    store: Map<Seq<char>, SpecRecord>,
    access: Seq<char>,
    w: StoreWrite,
    refresh_token: Seq<char>,
    now: int,
)
    requires
        w.key@ == invalid_token_key_of(access),
    ensures
        store_get(store_apply(store, w), refresh_token_key_of(refresh_token), now) == store_get(
            store,
            refresh_token_key_of(refresh_token),
            now,
        ),
{
    lemma_key_namespaces_disjoint(access, refresh_token);
}

/// When the store cannot be reached, verification of a decodable token
/// fails closed: the verdict is `StoreError`, never `Authenticated` and
/// never `Anonymous`.
pub proof fn lemma_store_outage_fails_closed(
    store: Map<Seq<char>, SpecRecord>,
    token: Seq<char>,
    secret: Seq<u8>,
    now: int,
)
    requires
        decoded_identity(token, secret, now) is Some,
    ensures
        verify_request_model(store, Some("Bearer "@ + token), secret, now, false)
            == VerificationResult::StoreError,
{
    lemma_bearer_header_round_trip(token);
}

/// A revocation record is live exactly until its write's absolute expiry:
/// with `invalidate` setting that expiry to the token's own `exp`, the
/// record's remaining TTL at write time is exactly `exp - now`, and a
/// revoked token never outlives its own expiry in the store.
pub proof fn lemma_revocation_record_lifetime(
    store: Map<Seq<char>, SpecRecord>,
    w: StoreWrite,
    at: int,
)
    ensures
        store_live(store_apply(store, w), w.key@, at) <==> at < w.expire_at,
{
}

/// The two-step executable pipeline — `from_header`, then `verify` with the
/// store's answer about the token's revocation key — yields exactly the
/// model verdict for the same store, header and time.
pub proof fn lemma_pipeline_matches_model(
    a: AuthInfo,
    store: Map<Seq<char>, SpecRecord>,
    header: Option<Seq<char>>,
    secret: Seq<u8>,
    now: int,
    lookup: Result<bool, StoreError>,
    store_ok: bool,
)
    requires
        from_header_model(a, header, secret, now),
        match header {
            Some(h) => match bearer_token_of(h) {
                Some(tok) => decoded_identity(tok, secret, now) is Some ==> if store_ok {
                    lookup == Ok::<bool, StoreError>(
                        store_live(store, invalid_token_key_of(tok), now),
                    )
                } else {
                    lookup is Err
                },
                None => true,
            },
            None => true,
        },
    ensures
        verify_outcome_model(a, lookup) == verify_request_model(store, header, secret, now, store_ok),
{
}

} // verus!
