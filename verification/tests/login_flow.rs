//! Tests of the login decision: how a fetched auth-method row, the method
//! type and the supplied password resolve to an identity or an error.

use auth_sessions::login::{
    verify_auth_method, AuthMethodType, LoginError, MethodPasswordData,
};
use auth_sessions::password::PasswordData;
use auth_sessions::session::AuthError;
use auth_sessions::user_id::UserId;

fn stored(password: &str) -> MethodPasswordData {
    MethodPasswordData::Parsed(PasswordData::new(password, 16, 3).unwrap())
}

#[test]
fn unknown_identifier_is_method_not_found() {
    let r = verify_auth_method(None, AuthMethodType::Email, Some("pw"));
    assert_eq!(r, Err(LoginError::MethodNotFound));
}

#[test]
fn email_login_checks_the_password() {
    let uid = UserId(7);
    let row = Some((uid, stored("hunter2")));
    assert_eq!(
        verify_auth_method(row, AuthMethodType::Email, Some("hunter2")),
        Ok(uid)
    );

    let row = Some((uid, stored("hunter2")));
    assert_eq!(
        verify_auth_method(row, AuthMethodType::Email, Some("hunter3")),
        Err(LoginError::WrongPassword)
    );
}

#[test]
fn email_login_requires_a_password_and_stored_data() {
    let uid = UserId(7);
    let row = Some((uid, stored("hunter2")));
    assert_eq!(
        verify_auth_method(row, AuthMethodType::Email, None),
        Err(LoginError::PasswordNotProvided)
    );

    let row = Some((uid, MethodPasswordData::Missing));
    assert_eq!(
        verify_auth_method(row, AuthMethodType::Email, Some("hunter2")),
        Err(LoginError::InvalidMethodData)
    );
}

#[test]
fn unreadable_stored_data_is_rejected_for_any_method() {
    let uid = UserId(7);
    let row = Some((uid, MethodPasswordData::Unreadable));
    assert_eq!(
        verify_auth_method(row, AuthMethodType::Kakao, None),
        Err(LoginError::InvalidMethodData)
    );
}

#[test]
fn external_methods_skip_the_password_check() {
    let uid = UserId(7);
    for method in [AuthMethodType::Kakao, AuthMethodType::Google, AuthMethodType::Facebook] {
        let row = Some((uid, MethodPasswordData::Missing));
        assert_eq!(verify_auth_method(row, method, None), Ok(uid));
    }
}

#[test]
fn login_error_messages_and_codes() {
    assert_eq!(LoginError::DbError.message(), "Database error");
    assert_eq!(LoginError::DbError.code(), "LoginError::DbError");
    assert_eq!(LoginError::MethodNotFound.message(), "No matching auth method found");
    assert_eq!(LoginError::WrongPassword.message(), "Wrong password");
    assert_eq!(
        LoginError::PasswordNotProvided.message(),
        "Password not provided while required for the requested method type"
    );
    assert_eq!(LoginError::InvalidMethodData.message(), "Invalid auth method data detected");
    assert_eq!(AuthError::NotAuthorized.message(), "Not authorized");
    assert_eq!(AuthError::NotAuthorized.code(), "AuthError::NotAuthorized");
    assert_eq!(AuthError::Invalidated.message(), "Invalidated auth token");
    assert_eq!(AuthError::Invalidated.code(), "AuthError::Invalidated");
}
