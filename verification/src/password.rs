//! Password records.
//!
//! A stored credential holds a PBKDF2-HMAC-SHA512 hash, its random salt
//! (both base64-encoded) and the iteration count. The key derivation itself
//! is ring's, behind trusted wrappers; its 64-byte output for given inputs is
//! named [`pbkdf2_sha512_of`], which is what makes checking a password exact:
//! a check succeeds for precisely the passwords whose derived key equals the
//! stored hash.

use vstd::prelude::*;
use crate::b64::{b64_decode, b64_decoded_of, b64_encode, b64_of};
use crate::random::fill_random;

verus! {

/// A stored password credential.
pub struct PasswordData {
    /// Base64 text of the 64-byte derived key.
    pub hash: String,
    /// Base64 text of the random salt.
    pub salt: String,
    /// PBKDF2 iteration count; always at least one.
    pub iterations: u32,
}

/// Failure while building a password record: the entropy source failed.
#[derive(Clone, Copy, PartialEq, Eq, Structural, Debug)]
pub enum PasswordEncryptionError {
    SaltCreationFailed,
}

impl PasswordEncryptionError {
    /// Human-readable description of this error.
    pub fn message(&self) -> (r: &'static str)
        ensures
            r@ == "Failed to create salt"@,
    {
        "Failed to create salt"
    }

    /// Stable machine code for this error.
    pub fn code(&self) -> (r: &'static str)
        ensures
            r@ == "PasswordEncryptionError::SaltCreationFailed"@,
    {
        "PasswordEncryptionError::SaltCreationFailed"
    }
}

/// The 64-byte PBKDF2-HMAC-SHA512 key derived from a password and salt at an
/// iteration count.
pub uninterp spec fn pbkdf2_sha512_of(iterations: u32, salt: Seq<u8>, password: Seq<char>) -> Seq<
    u8,
>;

/// Relies on ring's `pbkdf2::derive` with `PBKDF2_HMAC_SHA512` and a 64-byte
/// output: the key depends only on the iteration count, salt and password
/// bytes. The size bounds keep the inputs far below the lengths the call
/// rejects.
#[verifier::external_body]
fn pbkdf2_derive(iterations: u32, salt: &[u8], password: &str) -> (r: Vec<u8>)
    requires
        iterations >= 1,
        salt@.len() <= 0x100000000,
        password@.len() <= 0x100000000,
    ensures
        r@ == pbkdf2_sha512_of(iterations, salt@, password@),
        r@.len() == 64,
{
    let mut out = [0u8; ring::digest::SHA512_OUTPUT_LEN];
    let iters = std::num::NonZeroU32::new(iterations).unwrap();
    ring::pbkdf2::derive(ring::pbkdf2::PBKDF2_HMAC_SHA512, iters, salt, password.as_bytes(), &mut out);
    out.to_vec()
}

/// Relies on ring's `pbkdf2::verify` with `PBKDF2_HMAC_SHA512`: it succeeds
/// exactly when the key derived from these inputs equals `hash`.
#[verifier::external_body]
fn pbkdf2_check(iterations: u32, salt: &[u8], password: &str, hash: &[u8]) -> (r: bool)
    requires
        iterations >= 1,
        salt@.len() <= 0x100000000,
        password@.len() <= 0x100000000,
        hash@.len() == 64,
    ensures
        r == (hash@ == pbkdf2_sha512_of(iterations, salt@, password@)),
{
    let iters = std::num::NonZeroU32::new(iterations).unwrap();
    ring::pbkdf2::verify(ring::pbkdf2::PBKDF2_HMAC_SHA512, iters, salt, password.as_bytes(), hash).is_ok()
}

/// Whether `password` is the password this record was built from: the record
/// must decode (well-formed base64, 64-byte hash, salt of sane size, nonzero
/// iterations) and the derived key must equal the stored one.
pub open spec fn password_matches(data: PasswordData, password: Seq<char>) -> bool {
    &&& data.iterations >= 1
    &&& password.len() <= 0x100000000
    &&& match (b64_decoded_of(data.salt@), b64_decoded_of(data.hash@)) {
        (Some(salt), Some(hash)) => {
            &&& salt.len() <= 0x100000000
            &&& hash.len() == 64
            &&& hash == pbkdf2_sha512_of(data.iterations, salt, password)
        },
        _ => false,
    }
}

impl PasswordData {
    /// Build a record for `password` with a freshly drawn salt of
    /// `salt_size` bytes. Fails only when the entropy source fails; the
    /// resulting record matches exactly the password it was built from.
    pub fn new(password: &str, salt_size: usize, iterations: u32) -> (r: Result<
        PasswordData,
        PasswordEncryptionError,
    >)
        requires
            iterations >= 1,
            salt_size <= 0x100000000,
            password@.len() <= 0x100000000,
        ensures
            r matches Ok(d) ==> {
                &&& d.iterations == iterations
                &&& exists|salt: Seq<u8>|
                    {
                        &&& salt.len() == salt_size as int
                        &&& d.salt@ == b64_of(salt)
                        &&& b64_decoded_of(d.salt@) == Some(salt)
                        &&& d.hash@ == b64_of(pbkdf2_sha512_of(iterations, salt, password@))
                        &&& b64_decoded_of(d.hash@) == Some(
                            pbkdf2_sha512_of(iterations, salt, password@),
                        )
                    }
                &&& password_matches(d, password@)
            },
            r matches Err(e) ==> e == PasswordEncryptionError::SaltCreationFailed,
    {
        let mut salt: Vec<u8> = Vec::new();
        while salt.len() < salt_size
            invariant
                salt@.len() <= salt_size,
            decreases salt_size - salt@.len(),
        {
            salt.push(0u8);
        }
        if !fill_random(&mut salt) {
            return Err(PasswordEncryptionError::SaltCreationFailed);
        }
        let digest = pbkdf2_derive(iterations, salt.as_slice(), password);
        let data = PasswordData {
            hash: b64_encode(digest.as_slice()),
            salt: b64_encode(salt.as_slice()),
            iterations,
        };
        proof {
            assert(password_matches(data, password@));
        }
        Ok(data)
    }

    /// Check `password` against this record; true exactly when
    /// [`password_matches`] holds.
    pub fn verify(&self, password: &str) -> (r: bool)
        requires
            password@.len() <= 0x100000000,
    ensures
            r == password_matches(*self, password@),
    {
        if self.iterations == 0 {
            return false;
        }
        let salt = match b64_decode(self.salt.as_str()) {
            Some(v) => v,
            None => {
                return false;
            },
        };
        let hash = match b64_decode(self.hash.as_str()) {
            Some(v) => v,
            None => {
                return false;
            },
        };
        if hash.len() != 64 {
            return false;
        }
        if salt.len() as u64 > 0x100000000u64 {
            return false;
        }
        pbkdf2_check(self.iterations, salt.as_slice(), password, hash.as_slice())
    }
}

} // verus!
