//! Unit tests of the codecs: decimal text, identity text, token signing and
//! the password records, checked against concrete expected values and, for
//! the identity form, against the uuid crate.

use auth_sessions::codec::{create_refresh_token, decode_access, DecodeError, TokenError};
use auth_sessions::keys::{get_invalid_token_key, get_refresh_token_key};
use auth_sessions::login::create_login_result;
use auth_sessions::password::{PasswordData, PasswordEncryptionError};
use auth_sessions::store::StoreError;
use auth_sessions::text::{format_u64, parse_u64};
use auth_sessions::user_id::UserId;
use base64::Engine;

const SECRET: &[u8] = b"a-test-signing-secret-of-decent-length!!";
const NOW: u64 = 1_700_000_000;

#[test]
fn decimal_formatting_exact_values() {
    assert_eq!(format_u64(0), "0");
    assert_eq!(format_u64(7), "7");
    assert_eq!(format_u64(2_592_000), "2592000");
    assert_eq!(format_u64(u64::MAX), "18446744073709551615");
}

#[test]
fn decimal_parsing() {
    assert_eq!(parse_u64("0"), Some(0));
    assert_eq!(parse_u64("007"), Some(7));
    assert_eq!(parse_u64("18446744073709551615"), Some(u64::MAX));
    assert_eq!(parse_u64("18446744073709551616"), None);
    assert_eq!(parse_u64(""), None);
    assert_eq!(parse_u64("12a"), None);
    assert_eq!(parse_u64("-5"), None);
    for n in [0u64, 1, 9, 10, 1_700_000_000, u64::MAX] {
        assert_eq!(parse_u64(format_u64(n).as_str()), Some(n));
    }
}

#[test]
fn identity_text_matches_uuid_crate() {
    for id in [
        0u128,
        1,
        0x0123_4567_89ab_cdef_fedc_ba98_7654_3210,
        u128::MAX,
    ] {
        let ours = UserId(id).to_uuid_string();
        let theirs = uuid::Uuid::from_u128(id).to_string();
        assert_eq!(ours, theirs);
        assert_eq!(UserId::parse_str(ours.as_str()), Some(UserId(id)));
    }
}

#[test]
fn identity_parsing_rejects_malformed_text() {
    assert_eq!(UserId::parse_str(""), None);
    assert_eq!(UserId::parse_str("0123456789abcdef0123456789abcdef"), None);
    assert_eq!(UserId::parse_str("01234567-89ab-cdef-0123-456789abcde"), None);
    assert_eq!(UserId::parse_str("01234567x89ab-cdef-0123-456789abcdef"), None);
    assert_eq!(UserId::parse_str("01234567-89ab-cdef-0123-456789abcdeg"), None);
    assert_eq!(UserId::parse_str("01234567-89AB-CDEF-0123-456789ABCDEF"), None);
}

#[test]
fn store_keys_exact_values() {
    assert_eq!(get_invalid_token_key("tok"), "auth/invalidated_auth_token:tok");
    assert_eq!(get_refresh_token_key("tok"), "auth/refresh_token:tok");
}

#[test]
fn refresh_tokens_are_fresh_base64_of_requested_size() {
    let a = create_refresh_token(16).unwrap();
    let b = create_refresh_token(16).unwrap();
    assert_ne!(a, b);
    let bytes = base64::engine::general_purpose::STANDARD.decode(&a).unwrap();
    assert_eq!(bytes.len(), 16);
    let c = create_refresh_token(32).unwrap();
    let bytes = base64::engine::general_purpose::STANDARD.decode(&c).unwrap();
    assert_eq!(bytes.len(), 32);
}

#[test]
fn access_tokens_decode_only_under_their_secret() {
    let uid = UserId(42);
    let (res, _) = create_login_result(&uid, SECRET, 16, NOW).unwrap();
    let token = res.access_token;

    let claims = decode_access(token.as_str(), SECRET, NOW).unwrap();
    assert_eq!(claims.sub, uid.to_uuid_string());
    assert_eq!(claims.exp, NOW + 3600);

    let wrong = decode_access(token.as_str(), b"another-secret-entirely-here!!!!", NOW);
    assert_eq!(wrong, Err(DecodeError::SignatureInvalid));

    let mut tampered = token.clone();
    tampered.pop();
    let broken = decode_access(tampered.as_str(), SECRET, NOW);
    assert!(broken.is_err());
    assert_ne!(broken, Err(DecodeError::Expired));

    assert_eq!(
        decode_access("definitely-not-a-jwt", SECRET, NOW),
        Err(DecodeError::MalformedToken)
    );
}

#[test]
fn access_tokens_expire() {
    let uid = UserId(42);
    let (res, _) = create_login_result(&uid, SECRET, 16, NOW).unwrap();
    assert!(decode_access(res.access_token.as_str(), SECRET, NOW + 3599).is_ok());
    assert_eq!(
        decode_access(res.access_token.as_str(), SECRET, NOW + 3600),
        Err(DecodeError::Expired)
    );
    assert_eq!(
        decode_access(res.access_token.as_str(), SECRET, NOW + 3601),
        Err(DecodeError::Expired)
    );
}

#[test]
fn password_records_match_only_their_password() {
    let data = PasswordData::new("correct horse battery staple", 16, 3).unwrap();
    assert_eq!(data.iterations, 3);
    assert!(data.verify("correct horse battery staple"));
    assert!(!data.verify("correct horse battery stable"));
    assert!(!data.verify(""));
}

#[test]
fn corrupt_password_records_never_match() {
    let data = PasswordData {
        hash: "!!!not base64!!!".to_string(),
        salt: "c29tZXNhbHQ=".to_string(),
        iterations: 3,
    };
    assert!(!data.verify("anything"));
    let data = PasswordData {
        // Well-formed base64, but not 64 bytes long.
        hash: "c29tZXNhbHQ=".to_string(),
        salt: "c29tZXNhbHQ=".to_string(),
        iterations: 3,
    };
    assert!(!data.verify("anything"));
}

#[test]
fn error_messages_and_codes() {
    assert_eq!(TokenError::TokenCreationFailed.message(), "Token creation failed");
    assert_eq!(TokenError::TokenCreationFailed.code(), "TokenError::TokenCreationFailed");
    assert_eq!(StoreError.message(), "Store error");
    assert_eq!(StoreError.code(), "StoreError");
    assert_eq!(
        PasswordEncryptionError::SaltCreationFailed.message(),
        "Failed to create salt"
    );
    assert_eq!(
        PasswordEncryptionError::SaltCreationFailed.code(),
        "PasswordEncryptionError::SaltCreationFailed"
    );
}
