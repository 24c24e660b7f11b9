//! The user and key repositories.

use crabby_auth::domain::RegisterRequestData;
use crabby_auth::errors::AuthError;
use crabby_auth::keys::{
    derive_local_kid, derive_public_kid, generate_keypair, generate_symmetric_key,
    SymmetricKeyBytes,
};
use crabby_auth::keys_repo::{KeyRepo, KeyRetrieval};
use crabby_auth::token::refresh;
use crabby_auth::users::UserRepo;

const NOW: i64 = 1_700_000_000;

fn stored(username: &str, email: &str, hash: &str) -> RegisterRequestData {
    RegisterRequestData::new(username.to_string(), email.to_string(), hash.to_string())
}

#[test]
fn user_repo_register_and_find() {
    let mut repo = UserRepo::new();
    let resp = repo
        .register_user(stored("alice", "alice@example.com", "$fakehash"), 1, NOW)
        .unwrap();
    assert_eq!(resp.user_id, 1);
    assert_eq!(resp.username, "alice");
    assert_eq!(repo.count(), 1);

    let row = repo.get_user_from_id(1).unwrap();
    assert_eq!(row.username, "alice");
    assert_eq!(row.email, "alice@example.com");
    assert_eq!(row.password_hash, "$fakehash");
    assert_eq!(row.created_at, NOW);

    let row = repo.get_user_from_username("alice").unwrap();
    assert_eq!(row.user_id, 1);

    assert!(repo.get_user_from_id(2).is_none());
    assert!(repo.get_user_from_username("bob").is_none());
}

#[test]
fn user_repo_rejects_duplicates_without_partial_state() {
    let mut repo = UserRepo::new();
    repo.register_user(stored("alice", "alice@example.com", "$h1"), 1, NOW)
        .unwrap();

    let err = repo
        .register_user(stored("alice", "fresh@example.com", "$h2"), 2, NOW)
        .unwrap_err();
    assert_eq!(err, AuthError::CredentialConflict);
    assert_eq!(repo.count(), 1);

    let err = repo
        .register_user(stored("bob", "alice@example.com", "$h3"), 3, NOW)
        .unwrap_err();
    assert_eq!(err, AuthError::CredentialConflict);
    assert_eq!(repo.count(), 1);

    // A clashing identifier is an internal error, not a conflict.
    let err = repo
        .register_user(stored("bob", "bob@example.com", "$h4"), 1, NOW)
        .unwrap_err();
    assert_eq!(err, AuthError::Storage);
    assert_eq!(repo.count(), 1);

    assert!(repo.has_username("alice"));
    assert!(!repo.has_username("bob"));
    assert!(repo.has_email("alice@example.com"));
    assert!(!repo.has_email("bob@example.com"));
}

#[test]
fn key_repo_is_content_addressed() {
    let kp = generate_keypair().unwrap();
    let sym = generate_symmetric_key().unwrap();
    let mut repo = KeyRepo::new();
    repo.store_public_key(kp.public_bytes());
    repo.store_local_key(sym.as_bytes());

    let pkid = derive_public_kid(kp.public_bytes());
    let fetched = repo.fetch_public_key(&pkid).unwrap();
    assert_eq!(fetched, kp.public_bytes());
    assert!(repo.fetch_public_key("k4.pid.nonsense").is_none());

    let lkid = derive_local_kid(sym.as_bytes());
    assert!(repo.fetch_local_key(&lkid).is_some());
    assert!(repo.fetch_local_key(&pkid).is_none());

    // Storing the same key twice is harmless.
    repo.store_public_key(kp.public_bytes());
    assert!(repo.fetch_public_key(&pkid).is_some());

    let via_trait: Option<Vec<u8>> = repo.get_key(&pkid);
    assert_eq!(via_trait.as_ref(), Some(kp.public_bytes()));
    let via_trait: Option<SymmetricKeyBytes> = repo.get_key(&lkid);
    assert!(via_trait.is_some());
}

#[test]
fn refresh_records_advance_by_exactly_one() {
    let sym = generate_symmetric_key().unwrap();
    let mut repo = KeyRepo::new();
    let user: u128 = 77;

    assert!(repo.get_refresh_record(user).is_none());

    let meta = refresh(&sym, user, 1, NOW).unwrap();
    // The initial version must be 1.
    assert_eq!(
        repo.store_refresh_info(&meta, 2, &sym),
        Err(AuthError::Storage)
    );
    repo.store_refresh_info(&meta, 1, &sym).unwrap();

    let rec = repo.get_refresh_record(user).unwrap();
    assert_eq!(rec.user_id, user);
    assert_eq!(rec.version, 1);
    assert_eq!(rec.jti, meta.jti);
    assert_eq!(rec.issued_at, NOW);
    assert_eq!(rec.expires_at, NOW + 1_209_600);
    // A keyed hash is stored, never the token text.
    assert_eq!(rec.token_hash.len(), 32);
    assert_ne!(rec.token_hash.as_slice(), meta.token.as_bytes());

    // Skipping a version or repeating one is rejected; the next one works.
    let meta2 = refresh(&sym, user, 2, NOW).unwrap();
    assert_eq!(
        repo.store_refresh_info(&meta2, 1, &sym),
        Err(AuthError::Storage)
    );
    assert_eq!(
        repo.store_refresh_info(&meta2, 3, &sym),
        Err(AuthError::Storage)
    );
    repo.store_refresh_info(&meta2, 2, &sym).unwrap();
    assert_eq!(repo.get_refresh_record(user).unwrap().version, 2);

    // Records of one user do not disturb another's.
    let meta3 = refresh(&sym, 88, 1, NOW).unwrap();
    repo.store_refresh_info(&meta3, 1, &sym).unwrap();
    assert_eq!(repo.get_refresh_record(user).unwrap().version, 2);
    assert_eq!(repo.get_refresh_record(88).unwrap().version, 1);
}
