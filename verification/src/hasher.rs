//! Credential hashing: salted, memory-hard password hashing and
//! verification through argon2.
//!
//! Hashing draws a fresh random salt per call, so two hashes of the same
//! password differ; the salt and the algorithm parameters are embedded in
//! the PHC-encoded output, which makes verification self-describing. The
//! contracts speak through `argon_verifies`, the (deterministic) outcome
//! of verifying a password against a given PHC string.

use vstd::prelude::*;
use vstd::string::StringSliceAdditionalSpecFns;

use argon2::{Argon2, PasswordHasher, PasswordVerifier};

use crate::domain::valid_password;
use crate::errors::AuthError;

verus! {

/// Whether argon2 verification of `password` against the self-describing
/// PHC string `hash` succeeds. Verification recomputes the hash with the
/// salt and parameters embedded in `hash` and compares, so the outcome is
/// a function of the two arguments alone.
pub uninterp spec fn argon_verifies(password: Seq<u8>, hash: Seq<char>) -> bool;

/// Relies on argon2's `PasswordHasher::hash_password`: hashes the password
/// with default Argon2id parameters and a fresh random salt, embedding both
/// in the PHC output, so that verifying the same password against the
/// returned string succeeds.
#[verifier::external_body]
fn argon2_hash(password: &str) -> (r: Result<String, AuthError>)
    ensures
        r matches Ok(h) ==> argon_verifies(password.spec_bytes(), h@),
        r matches Err(e) ==> e == AuthError::Storage,
{
    match Argon2::default().hash_password(password.as_bytes()) {
        Ok(h) => Ok(h.to_string()),
        Err(_) => Err(AuthError::Storage),
    }
}

/// Relies on argon2's `PasswordVerifier::verify_password`: recomputes the
/// hash of `password` under the salt and parameters embedded in `hash` and
/// reports whether it matches; any parse or verification error is a
/// mismatch.
#[verifier::external_body]
fn argon2_verify(password: &str, hash: &str) -> (r: bool)
    ensures
        r == argon_verifies(password.spec_bytes(), hash@),
{
    Argon2::default().verify_password(password.as_bytes(), hash).is_ok()
}

/// The credential hasher, constructed once at startup. It owns no mutable
/// state; the algorithm parameters are fixed service policy.
pub struct CredentialHasher {}

impl CredentialHasher {
    /// A hasher with the service's fixed parameters.
    pub fn new() -> (r: Self) {
        CredentialHasher {  }
    }

    /// Hashes a password into a self-describing PHC record. The caller has
    /// already validated the password's length. A failure is an internal
    /// error: it indicates a configuration bug, not bad input.
    pub fn hash(&self, password: &str) -> (r: Result<String, AuthError>)
        requires
            valid_password(password@),
        ensures
            r matches Ok(h) ==> argon_verifies(password.spec_bytes(), h@),
            r matches Err(e) ==> e == AuthError::Storage,
    {
        argon2_hash(password)
    }

    /// Verifies a password against a stored PHC record; returns exactly
    /// whether argon2 verification succeeds.
    pub fn verify(&self, password: &str, hash: &str) -> (r: bool)
        ensures
            r == argon_verifies(password.spec_bytes(), hash@),
    {
        argon2_verify(password, hash)
    }
}

} // verus!
