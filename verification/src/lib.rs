//! Credential-issuance and token-lifecycle core.
//!
//! The crate registers users, verifies passwords, and issues and validates
//! two classes of bearer credentials: short-lived signed access tokens and
//! long-lived encrypted refresh tokens (PASETO v4), backed by in-memory
//! repositories with transactional semantics.
//!
//! - [`domain`] holds the request newtypes and their shape validation.
//! - [`hasher`] wraps salted, memory-hard password hashing.
//! - [`users`] is the user repository: unique usernames, emails and
//!   identifiers, atomic registration.
//! - [`keys`] holds the key material and derives content-addressed key
//!   identifiers; [`keys_repo`] persists keys by identifier and keeps the
//!   versioned refresh-token records.
//! - [`token`] mints and validates both token kinds, checking claims
//!   against an injected clock.
//! - [`authenticate`] composes everything into the four operations:
//!   register, login, refresh and public-key disclosure.

pub mod authenticate;
pub mod domain;
pub mod errors;
pub mod hasher;
pub mod ids;
pub mod keys;
pub mod keys_repo;
pub mod text;
pub mod token;
pub mod users;
