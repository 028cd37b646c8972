//! Login: credential checking and session issuance.
//!
//! Credential rows live in the external user directory; the application
//! fetches the row for an (auth method, identifier) pair and hands its
//! contents over. Deciding what that row means — including the password
//! check for the email method — is verified logic here, as is the issuance
//! of the access/refresh token pair for the resolved identity.

use vstd::prelude::*;
use crate::b64::b64_of;
use crate::codec::{
    create_access_token,
    create_refresh_token,
    jwt_claims_of,
    jwt_of,
    TokenError,
    ACCESS_TOKEN_TTL_SECS,
};
use crate::keys::refresh_token_key_of;
use crate::password::{password_matches, PasswordData};
use crate::refresh::{register_refresh_token, REFRESH_TOKEN_TTL_SECS};
use crate::store::StoreWrite;
use crate::text::dec_chars_of;
use crate::user_id::{uuid_chars_of, UserId};

verus! {

/// How a user authenticates.
#[derive(Clone, Copy, PartialEq, Eq, Structural, Debug, Hash)]
pub enum AuthMethodType {
    Email,
    Kakao,
    Google,
    Facebook,
}

/// Why a login attempt failed.
#[derive(Clone, Copy, PartialEq, Eq, Structural, Debug)]
pub enum LoginError {
    /// The user directory could not be queried.
    DbError,
    /// The method requires a password and none was provided.
    PasswordNotProvided,
    /// No auth method row matches the identifier.
    MethodNotFound,
    /// The row's stored credential payload is unusable.
    InvalidMethodData,
    /// The password does not match the stored credential.
    WrongPassword,
}

impl LoginError {
    /// Human-readable description of this error.
    pub fn message(&self) -> (r: &'static str)
        ensures
            *self == LoginError::DbError ==> r@ == "Database error"@,
            *self == LoginError::PasswordNotProvided ==> r@
                == "Password not provided while required for the requested method type"@,
            *self == LoginError::MethodNotFound ==> r@ == "No matching auth method found"@,
            *self == LoginError::InvalidMethodData ==> r@ == "Invalid auth method data detected"@,
            *self == LoginError::WrongPassword ==> r@ == "Wrong password"@,
    {
        match self {
            LoginError::DbError => "Database error",
            LoginError::PasswordNotProvided => "Password not provided while required for the requested method type",
            LoginError::MethodNotFound => "No matching auth method found",
            LoginError::InvalidMethodData => "Invalid auth method data detected",
            LoginError::WrongPassword => "Wrong password",
        }
    }

    /// Stable machine code for this error.
    pub fn code(&self) -> (r: &'static str)
        ensures
            *self == LoginError::DbError ==> r@ == "LoginError::DbError"@,
            *self == LoginError::PasswordNotProvided ==> r@ == "LoginError::PasswordNotProvided"@,
            *self == LoginError::MethodNotFound ==> r@ == "LoginError::MethodNotFound"@,
            *self == LoginError::InvalidMethodData ==> r@ == "LoginError::InvalidMethodData"@,
            *self == LoginError::WrongPassword ==> r@ == "LoginError::WrongPassword"@,
    {
        match self {
            LoginError::DbError => "LoginError::DbError",
            LoginError::PasswordNotProvided => "LoginError::PasswordNotProvided",
            LoginError::MethodNotFound => "LoginError::MethodNotFound",
            LoginError::InvalidMethodData => "LoginError::InvalidMethodData",
            LoginError::WrongPassword => "LoginError::WrongPassword",
        }
    }
}

/// The credential payload of a fetched auth-method row, as the application
/// hands it over after JSON parsing.
pub enum MethodPasswordData {
    /// The row carries no payload.
    Missing,
    /// The row carries a payload that did not parse into a password record.
    Unreadable,
    /// The row's parsed password record.
    Parsed(PasswordData),
}

/// What `verify_auth_method` decides.
pub open spec fn verify_auth_method_model(
    method: Option<(UserId, MethodPasswordData)>,
    auth_type: AuthMethodType,
    password: Option<Seq<char>>,
) -> Result<UserId, LoginError> {
    match method {
        None => Err(LoginError::MethodNotFound),
        Some((uid, extra)) => match extra {
            MethodPasswordData::Unreadable => Err(LoginError::InvalidMethodData),
            MethodPasswordData::Missing => if auth_type == AuthMethodType::Email {
                Err(LoginError::InvalidMethodData)
            } else {
                Ok(uid)
            },
            MethodPasswordData::Parsed(data) => if auth_type != AuthMethodType::Email {
                Ok(uid)
            } else {
                match password {
                    None => Err(LoginError::PasswordNotProvided),
                    Some(pw) => if password_matches(data, pw) {
                        Ok(uid)
                    } else {
                        Err(LoginError::WrongPassword)
                    },
                }
            },
        },
    }
}

/// Decide a login attempt from the fetched auth-method row: the email method
/// demands a stored credential and a matching password; other methods
/// resolve to the row's identity once the payload (if any) was readable.
pub fn verify_auth_method(
    method: Option<(UserId, MethodPasswordData)>,
    auth_type: AuthMethodType,
    password: Option<&str>,
) -> (r: Result<UserId, LoginError>)
    requires
        match password {
            Some(p) => p@.len() <= 0x100000000,
            None => true,
        },
    ensures
        r == verify_auth_method_model(
            method,
            auth_type,
            match password {
                Some(p) => Some(p@),
                None => None,
            },
        ),
{
    let (uid, extra) = match method {
        None => {
            return Err(LoginError::MethodNotFound);
        },
        Some(m) => m,
    };
    let data = match extra {
        MethodPasswordData::Unreadable => {
            return Err(LoginError::InvalidMethodData);
        },
        MethodPasswordData::Missing => None,
        MethodPasswordData::Parsed(data) => Some(data),
    };
    if !matches!(auth_type, AuthMethodType::Email) {
        return Ok(uid);
    }
    let data = match data {
        None => {
            return Err(LoginError::InvalidMethodData);
        },
        Some(d) => d,
    };
    let pw = match password {
        None => {
            return Err(LoginError::PasswordNotProvided);
        },
        Some(p) => p,
    };
    if data.verify(pw) {
        Ok(uid)
    } else {
        Err(LoginError::WrongPassword)
    }
}

/// What a successful login hands the client.
pub struct LoginResult {
    pub access_token: String,
    pub refresh_token: String,
}

/// Issue a fresh session for `user`: an access token expiring in one hour, a
/// refresh token of `refresh_size` random bytes, and the store write that
/// registers the refresh token's thirty-day record.
///
/// Under the clock bound the access token cannot fail; the call errs only
/// when drawing the refresh token's random bytes fails.
pub fn create_login_result(user: &UserId, secret: &[u8], refresh_size: usize, now: u64) -> (r:
    Result<(LoginResult, StoreWrite), TokenError>)
    requires
        now + REFRESH_TOKEN_TTL_SECS <= u64::MAX,
    ensures
        r matches Ok((res, w)) ==> {
            &&& res.access_token@ == jwt_of(
                uuid_chars_of(user.0),
                now + ACCESS_TOKEN_TTL_SECS,
                secret@,
            )
            &&& jwt_claims_of(res.access_token@, secret@) == Some(
                (uuid_chars_of(user.0), now + ACCESS_TOKEN_TTL_SECS),
            )
            &&& (exists|bytes: Seq<u8>|
                bytes.len() == refresh_size as int && res.refresh_token@ == b64_of(bytes))
            &&& w.key@ == refresh_token_key_of(res.refresh_token@)
            &&& w.value@ == dec_chars_of((now + REFRESH_TOKEN_TTL_SECS) as nat)
            &&& w.expire_at == now + REFRESH_TOKEN_TTL_SECS
        },
        r matches Err(e) ==> e == TokenError::TokenCreationFailed,
{
    let access_token = match create_access_token(user, secret, now) {
        Some(t) => t,
        None => {
            // The clock bound in `requires` rules the overflow out, and
            // signing itself cannot fail.
            assert(false);
            return Err(TokenError::TokenCreationFailed);
        },
    };
    let refresh_token = match create_refresh_token(refresh_size) {
        Some(t) => t,
        None => {
            return Err(TokenError::TokenCreationFailed);
        },
    };
    let record = register_refresh_token(refresh_token.as_str(), now);
    Ok((LoginResult { access_token, refresh_token }, record))
}

} // verus!
