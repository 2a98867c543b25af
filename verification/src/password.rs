//! One-way salted password hashing and verification.
//!
//! Hashing derives a randomly salted, memory-hard PHC-format encoding; the
//! same password yields a different encoding on every call, but every
//! encoding verifies against the password it was derived from.  A malformed
//! stored encoding is a server fault, never a client fault.

use vstd::prelude::*;

use crate::errors::AuthenticationServiceError;

verus! {

/// Whether a stored PHC-format encoding matches a password.  Deterministic
/// in the encoding (which carries its own salt) and the password; named
/// after the result of `argon2::Argon2::verify_password`.
pub uninterp spec fn password_matches(hash: Seq<char>, password: Seq<char>) -> bool;

/// Whether a string is an encoding that the hashing backend itself produced
/// and can verify; named after the output set of `argon2::Argon2::hash_password`.
pub uninterp spec fn argon2_encoded(hash: Seq<char>) -> bool;

/// Whether a string is structurally a PHC-format hash encoding; named
/// after the success of `argon2::PasswordHash::new`, which is deterministic
/// in the string.
pub uninterp spec fn phc_parsed(hash: Seq<char>) -> bool;

/// Relies on `argon2::Argon2::hash_password` (PHC string format, fresh
/// random salt): the returned encoding is well formed — it parses as a PHC
/// string — and verifies against the password it was derived from.
#[verifier::external_body]
fn argon2_hash(password: &str) -> (r: Result<String, String>)
    ensures
        r matches Ok(h) ==> argon2_encoded(h@) && phc_parsed(h@) && password_matches(
            h@,
            password@,
        ),
{
    let hasher = argon2::Argon2::default();
    match argon2::PasswordHasher::hash_password(&hasher, password.as_bytes()) {
        Ok(h) => Ok(h.to_string()),
        Err(e) => Err(format!("{}", e)),
    }
}

/// Relies on `argon2::Argon2::verify_password`: it first parses the stored
/// encoding with `PasswordHash::new`, so a structurally invalid encoding is
/// always an error, never a verdict; on a parsed encoding it recomputes the
/// hash under the carried parameters and salt and compares, reporting a
/// mismatch as `Error::PasswordInvalid`; nothing panics.
#[verifier::external_body]
fn argon2_check(hash: &str, password: &str) -> (r: Result<bool, String>)
    ensures
        r matches Ok(b) ==> b == password_matches(hash@, password@),
        argon2_encoded(hash@) && password@.len() < 0x4000_0000 ==> r is Ok,
        !phc_parsed(hash@) ==> r is Err,
{
    let hasher = argon2::Argon2::default();
    match argon2::PasswordVerifier::<str>::verify_password(&hasher, password.as_bytes(), hash) {
        Ok(()) => Ok(true),
        Err(argon2::password_hash::Error::PasswordInvalid) => Ok(false),
        Err(e) => Err(format!("{}", e)),
    }
}

/// One-way salted hashing and verification of passwords.
pub struct PasswordService;

impl PasswordService {
    /// Derives a fresh, randomly salted one-way hash of `password`.  Only a
    /// backend failure is an error, and it is a server fault.
    pub fn hash_password(&self, password: &str) -> (r: Result<
        String,
        AuthenticationServiceError,
    >)
        ensures
            match r {
                Ok(h) => argon2_encoded(h@) && phc_parsed(h@) && password_matches(h@, password@),
                Err(e) => e is ServerError,
            },
    {
        match argon2_hash(password) {
            Ok(h) => Ok(h),
            Err(m) => Err(AuthenticationServiceError::ServerError(m)),
        }
    }

    /// Reports whether `password` matches the stored encoding `hash`.  A
    /// structurally invalid stored encoding is a server fault (stored-data
    /// corruption), not a client fault and never a silent verdict; an
    /// encoding produced by [`Self::hash_password`] always yields a verdict.
    pub fn verify_password(&self, hash: &str, password: &str) -> (r: Result<
        bool,
        AuthenticationServiceError,
    >)
        ensures
            match r {
                Ok(b) => b == password_matches(hash@, password@),
                Err(e) => e is ServerError,
            },
            argon2_encoded(hash@) && password@.len() < 0x4000_0000 ==> r is Ok,
            !phc_parsed(hash@) ==> (r matches Err(e) && e is ServerError),
    {
        match argon2_check(hash, password) {
            Ok(b) => Ok(b),
            Err(m) => Err(AuthenticationServiceError::ServerError(m)),
        }
    }
}

} // verus!
