//! End-to-end scenarios of the session lifecycle: login, verification,
//! logout, and the refresh protocol, with the store simulated as the set of
//! writes the engine asked for.

use auth_sessions::codec::{decode_access, TokenError};
use auth_sessions::login::create_login_result;
use auth_sessions::refresh::{check_refresh, refresh_session, RefreshCheckResult, RefreshError};
use auth_sessions::session::{AuthError, AuthInfo, VerificationResult};
use auth_sessions::store::{StoreError, StoreWrite};
use auth_sessions::user_id::UserId;

const SECRET: &[u8] = b"a-test-signing-secret-of-decent-length!!";
const NOW: u64 = 1_700_000_000;
const REFRESH_SIZE: usize = 16;

fn test_user() -> UserId {
    UserId(0x0123_4567_89ab_cdef_fedc_ba98_7654_3210)
}

/// Whether the simulated store holds a live record under `key` at `now`.
fn store_has(writes: &[StoreWrite], key: &str, now: u64) -> bool {
    writes.iter().any(|w| w.key.as_str() == key && w.expire_at > now)
}

fn verified_auth(header: String, writes: &[StoreWrite], now: u64) -> (AuthInfo, VerificationResult) {
    let mut auth = AuthInfo::from_header(Some(header), SECRET, now);
    let lookup = match auth.revocation_check_key() {
        Some(key) => Ok(store_has(writes, key.as_str(), now)),
        None => Ok(false),
    };
    let outcome = auth.verify(lookup);
    (auth, outcome)
}

#[test]
fn login_then_verify_authenticates() {
    let uid = test_user();
    let (res, _record) = create_login_result(&uid, SECRET, REFRESH_SIZE, NOW).unwrap();
    let writes: Vec<StoreWrite> = Vec::new();
    let (auth, outcome) = verified_auth(format!("Bearer {}", res.access_token), &writes, NOW);
    assert!(matches!(outcome, VerificationResult::Authenticated(u) if u == uid));
    assert_eq!(auth.get_user_id().unwrap(), uid);
}

#[test]
fn logout_then_verify_invalidated() {
    let uid = test_user();
    let (res, _record) = create_login_result(&uid, SECRET, REFRESH_SIZE, NOW).unwrap();
    let writes: Vec<StoreWrite> = Vec::new();
    let (auth, outcome) = verified_auth(format!("Bearer {}", res.access_token), &writes, NOW);
    assert!(matches!(outcome, VerificationResult::Authenticated(_)));

    let revocation = auth.invalidate().unwrap();
    assert_eq!(
        revocation.key,
        format!("auth/invalidated_auth_token:{}", res.access_token)
    );
    let writes = vec![revocation];

    // The same token, signature and expiry untouched, is now rejected.
    let (auth2, outcome2) = verified_auth(format!("Bearer {}", res.access_token), &writes, NOW);
    assert!(matches!(outcome2, VerificationResult::Invalidated));
    assert_eq!(auth2.get_user_id(), Err(AuthError::Invalidated));
}

#[test]
fn revocation_record_expires_with_its_token() {
    let uid = test_user();
    let (res, _record) = create_login_result(&uid, SECRET, REFRESH_SIZE, NOW).unwrap();
    let auth = AuthInfo::from_header(Some(format!("Bearer {}", res.access_token)), SECRET, NOW);
    let revocation = auth.invalidate().unwrap();
    // The record expires exactly when the token does: one hour after issue,
    // never a fixed constant.
    assert_eq!(revocation.expire_at, NOW + 3600);

    let later = NOW + 100;
    let (res2, _record) = create_login_result(&uid, SECRET, REFRESH_SIZE, later).unwrap();
    let auth2 = AuthInfo::from_header(Some(format!("Bearer {}", res2.access_token)), SECRET, later);
    assert_eq!(auth2.invalidate().unwrap().expire_at, later + 3600);
}

#[test]
fn store_outage_reports_store_error() {
    let uid = test_user();
    let (res, _record) = create_login_result(&uid, SECRET, REFRESH_SIZE, NOW).unwrap();
    let mut auth = AuthInfo::from_header(Some(format!("Bearer {}", res.access_token)), SECRET, NOW);
    let outcome = auth.verify(Err(StoreError));
    assert!(matches!(outcome, VerificationResult::StoreError));
    assert!(!matches!(outcome, VerificationResult::Authenticated(_)));
    assert!(!matches!(outcome, VerificationResult::Anonymous));
}

#[test]
fn refresh_unknown_token_returns_none() {
    let uid = test_user();
    let (res, _record) = create_login_result(&uid, SECRET, REFRESH_SIZE, NOW).unwrap();
    let writes: Vec<StoreWrite> = Vec::new();
    let (auth, _) = verified_auth(format!("Bearer {}", res.access_token), &writes, NOW);
    // No record in the store (unknown token, or one whose TTL elapsed).
    let outcome = refresh_session(&auth, None, SECRET, REFRESH_SIZE, NOW).unwrap();
    assert!(outcome.is_none());
}

#[test]
fn refresh_immediately_after_login_keeps_refresh_token() {
    let uid = test_user();
    let (res, record) = create_login_result(&uid, SECRET, REFRESH_SIZE, NOW).unwrap();
    assert_eq!(record.key, format!("auth/refresh_token:{}", res.refresh_token));
    assert_eq!(record.expire_at, NOW + 30 * 86400);

    let writes: Vec<StoreWrite> = Vec::new();
    let (auth, _) = verified_auth(format!("Bearer {}", res.access_token), &writes, NOW);
    // Thirty days remain: well above the ten-day threshold.
    let (renewed, effects) = refresh_session(&auth, Some(record.value.as_str()), SECRET, REFRESH_SIZE, NOW)
        .unwrap()
        .unwrap();
    assert!(renewed.refresh_token.is_none());
    assert!(effects.register_refresh.is_none());
    assert_eq!(
        effects.revoke_access.key,
        format!("auth/invalidated_auth_token:{}", res.access_token)
    );
    assert_eq!(effects.revoke_access.expire_at, NOW + 3600);

    let claims = decode_access(renewed.access_token.as_str(), SECRET, NOW).unwrap();
    assert_eq!(claims.sub, uid.to_uuid_string());
    assert_eq!(claims.exp, NOW + 3600);
}

#[test]
fn refresh_near_expiry_rotates_refresh_token() {
    let uid = test_user();
    let (res, _record) = create_login_result(&uid, SECRET, REFRESH_SIZE, NOW).unwrap();
    let writes: Vec<StoreWrite> = Vec::new();
    let (auth, _) = verified_auth(format!("Bearer {}", res.access_token), &writes, NOW);

    // Five days remain: inside the ten-day renewal window.
    let record_value = (NOW + 5 * 86400).to_string();
    let (renewed, effects) = refresh_session(&auth, Some(record_value.as_str()), SECRET, REFRESH_SIZE, NOW)
        .unwrap()
        .unwrap();
    let rotated = renewed.refresh_token.expect("rotation must issue a refresh token");
    assert_ne!(rotated, res.refresh_token);

    let register = effects.register_refresh.expect("rotation must register the new record");
    assert_eq!(register.key, format!("auth/refresh_token:{}", rotated));
    assert_eq!(register.expire_at, NOW + 30 * 86400);
    assert_eq!(register.value, (NOW + 30 * 86400).to_string());

    let claims = decode_access(renewed.access_token.as_str(), SECRET, NOW).unwrap();
    assert_eq!(claims.sub, uid.to_uuid_string());
}

#[test]
fn refresh_survives_access_token_revocation() {
    let uid = test_user();
    let (res, record) = create_login_result(&uid, SECRET, REFRESH_SIZE, NOW).unwrap();
    let writes: Vec<StoreWrite> = Vec::new();
    let (auth, _) = verified_auth(format!("Bearer {}", res.access_token), &writes, NOW);

    // Revoke the access token (logout).
    let revocation = auth.invalidate().unwrap();
    let writes = vec![revocation];
    let (auth2, outcome2) = verified_auth(format!("Bearer {}", res.access_token), &writes, NOW);
    assert!(matches!(outcome2, VerificationResult::Invalidated));

    // The paired, still-valid refresh token is independent of that
    // revocation: refresh still succeeds and mints a fresh access token.
    let (renewed, _effects) = refresh_session(&auth2, Some(record.value.as_str()), SECRET, REFRESH_SIZE, NOW)
        .unwrap()
        .unwrap();
    let claims = decode_access(renewed.access_token.as_str(), SECRET, NOW).unwrap();
    assert_eq!(claims.sub, uid.to_uuid_string());
}

#[test]
fn rotation_threshold_boundary() {
    // Exactly ten days left: the refresh token is kept.
    let at_threshold = (NOW + 10 * 86400).to_string();
    assert!(matches!(
        check_refresh(Some(at_threshold.as_str()), NOW),
        Ok(RefreshCheckResult::OnlyAccessToken)
    ));
    // One second inside the window: the refresh token rotates.
    let inside = (NOW + 10 * 86400 - 1).to_string();
    assert!(matches!(
        check_refresh(Some(inside.as_str()), NOW),
        Ok(RefreshCheckResult::Both)
    ));
    // No record at all: reject.
    assert!(matches!(check_refresh(None, NOW), Ok(RefreshCheckResult::NoRecord)));
    // A corrupt record value is a store fault, not a decision.
    assert!(matches!(check_refresh(Some("not-a-number"), NOW), Err(StoreError)));
}

#[test]
fn refresh_fails_when_the_rotated_record_cannot_be_timestamped() {
    // A clock value so late that the rotated record's thirty-day expiry
    // cannot be represented: issuance reports a token-creation failure
    // instead of wrapping around.
    let late = u64::MAX - 10;
    let auth = AuthInfo {
        user_id: Some(test_user()),
        auth_token: Some("stale-token".to_string()),
        token_exp: Some(u64::MAX),
        valid: Some(true),
    };
    let record_value = u64::MAX.to_string();
    let r = refresh_session(&auth, Some(record_value.as_str()), SECRET, REFRESH_SIZE, late);
    assert!(matches!(
        r,
        Err(RefreshError::Token(TokenError::TokenCreationFailed))
    ));
}

#[test]
fn anonymous_requests_stay_anonymous() {
    let writes: Vec<StoreWrite> = Vec::new();

    let mut auth = AuthInfo::from_header(None, SECRET, NOW);
    assert!(auth.revocation_check_key().is_none());
    assert!(matches!(auth.verify(Ok(false)), VerificationResult::Anonymous));
    assert_eq!(auth.get_user_id(), Err(AuthError::NotAuthorized));

    // Wrong scheme.
    let (_, outcome) = verified_auth("Token abc".to_string(), &writes, NOW);
    assert!(matches!(outcome, VerificationResult::Anonymous));

    // Bearer, but not a token we signed.
    let (auth3, outcome3) = verified_auth("Bearer not.a.token".to_string(), &writes, NOW);
    assert!(matches!(outcome3, VerificationResult::Anonymous));
    assert!(auth3.revocation_check_key().is_none());
}

#[test]
fn expired_access_token_is_anonymous() {
    let uid = test_user();
    let (res, _record) = create_login_result(&uid, SECRET, REFRESH_SIZE, NOW).unwrap();
    let writes: Vec<StoreWrite> = Vec::new();
    // One hour and one second later the token itself has expired.
    let later = NOW + 3601;
    let (_, outcome) = verified_auth(format!("Bearer {}", res.access_token), &writes, later);
    assert!(matches!(outcome, VerificationResult::Anonymous));
    // At the last valid instant it still authenticates.
    let (_, outcome2) = verified_auth(format!("Bearer {}", res.access_token), &writes, NOW + 3599);
    assert!(matches!(outcome2, VerificationResult::Authenticated(_)));
}
