//! Password hashing and verification round trips.

use crabby_auth::hasher::CredentialHasher;

#[test]
fn hash_then_verify_succeeds() {
    let hasher = CredentialHasher::new();
    let hash = hasher.hash("password123").unwrap();
    assert!(hasher.verify("password123", &hash));
}

#[test]
fn verify_rejects_wrong_password() {
    let hasher = CredentialHasher::new();
    let hash = hasher.hash("password123").unwrap();
    assert!(!hasher.verify("password124", &hash));
    assert!(!hasher.verify("Password123", &hash));
    assert!(!hasher.verify("", &hash));
}

#[test]
fn hashes_are_salted_and_self_describing() {
    let hasher = CredentialHasher::new();
    let first = hasher.hash("correct horse battery").unwrap();
    let second = hasher.hash("correct horse battery").unwrap();
    // A fresh random salt per call: the encodings differ, yet both verify.
    assert_ne!(first, second);
    assert!(hasher.verify("correct horse battery", &first));
    assert!(hasher.verify("correct horse battery", &second));
    // The PHC encoding names the algorithm and embeds the salt.
    assert!(first.starts_with("$argon2"));
    assert_ne!(first, "correct horse battery");
}

#[test]
fn verify_rejects_garbage_hash() {
    let hasher = CredentialHasher::new();
    assert!(!hasher.verify("password123", "not a phc string"));
    assert!(!hasher.verify("password123", ""));
}
