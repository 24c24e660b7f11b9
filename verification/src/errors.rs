//! Error taxonomy of the authentication core.
//!
//! Every failure of a public operation falls into one of five categories.
//! Authentication failures are deliberately uniform so that callers cannot
//! distinguish an unknown username from a wrong password or a replayed token.

use vstd::prelude::*;

verus! {

/// The reason an input failed shape validation.
#[derive(Clone, Copy, Debug, PartialEq, Eq, Structural)]
pub enum ValidationKind {
    /// Username shorter than 5 or longer than 20 characters.
    UsernameLength,
    /// The email address does not match the accepted grammar.
    EmailFormat,
    /// Password shorter than 8 characters.
    PasswordLength,
}

/// Outward error categories of the authentication core.
#[derive(Clone, Copy, Debug, PartialEq, Eq, Structural)]
pub enum AuthError {
    /// Malformed input (bad email, short password or username); never retried.
    Validation(ValidationKind),
    /// Username or email already taken; distinct from authentication failures.
    CredentialConflict,
    /// Bad password, unknown username, invalid/expired/replayed token, or a
    /// key-identifier mismatch; one uniform category for all of them.
    AuthenticationFailure,
    /// A token referenced a key identifier that no stored key carries.
    /// Reported outward exactly as an authentication failure.
    KeyResolution,
    /// An internal failure (hashing configuration, identifier collision);
    /// the operation is aborted and never partially applied.
    Storage,
}

impl AuthError {
    /// A caller-facing message. Authentication and key-resolution failures
    /// share one generic message to prevent enumeration oracles.
    pub fn message(&self) -> (r: &'static str)
        ensures
            (*self matches AuthError::AuthenticationFailure
                || *self matches AuthError::KeyResolution) ==> r@ == "could not authenticate"@,
    {
        match self {
            AuthError::Validation(ValidationKind::UsernameLength) => "invalid username length",
            AuthError::Validation(ValidationKind::EmailFormat) => "invalid email address",
            AuthError::Validation(ValidationKind::PasswordLength) => "invalid password length",
            AuthError::CredentialConflict => "credential already exists",
            AuthError::AuthenticationFailure => "could not authenticate",
            AuthError::KeyResolution => "could not authenticate",
            AuthError::Storage => "internal error",
        }
    }
}

} // verus!
