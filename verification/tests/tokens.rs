//! Token minting, parsing and validation.

use crabby_auth::ids::uuid_to_string;
use crabby_auth::keys::{
    derive_local_kid, derive_public_kid, generate_keypair, generate_symmetric_key,
    serialize_public_key,
};
use crabby_auth::token::{
    bearer, expired, extract_footer_kid, refresh, validate_refresh, validate_token, verify_bearer,
    verify_type, verify_version, AuthTokenVerifier, TokenClaims, TokenType,
    TokenVerificationConfig, TokenVersion, UnverifiedRefreshToken,
};

fn unix_now() -> i64 {
    std::time::SystemTime::now()
        .duration_since(std::time::UNIX_EPOCH)
        .unwrap()
        .as_secs() as i64
}

#[test]
fn minted_access_token_round_trips_subject() {
    let now = unix_now();
    let kp = generate_keypair().unwrap();
    let user_id: u128 = 0x1234_5678_9abc_def0_1234_5678_9abc_def0;
    let id_str = uuid_to_string(user_id);
    let token = bearer("alice", &id_str, &kp, now).unwrap();
    assert!(token.starts_with("v4.public."));

    let config = TokenVerificationConfig::asymmetric(kp.public_bytes().clone());
    let verifier = AuthTokenVerifier::verification_config(config);
    let claims = verifier.verify(&token, now).unwrap();
    assert_eq!(claims.subject.as_deref(), Some(id_str.as_str()));
    assert_eq!(claims.username.as_deref(), Some("alice"));
    assert_eq!(claims.issuer.as_deref(), Some("crabby-auth"));
    assert_eq!(claims.audience.as_deref(), Some("crabby-gateway"));
    assert_eq!(claims.expiry, now + 900);
}

#[test]
fn access_token_fails_validation_after_expiry() {
    let now = unix_now();
    let kp = generate_keypair().unwrap();
    let id_str = uuid_to_string(7);
    let token = bearer("bob", &id_str, &kp, now).unwrap();

    let config = TokenVerificationConfig::asymmetric(kp.public_bytes().clone());
    let verifier = AuthTokenVerifier::verification_config(config);
    // Fifteen minutes and one second later, the clock has passed expiry.
    assert!(verifier.verify(&token, now + 901).is_err());
    // At the boundary it is still accepted.
    assert!(verifier.verify(&token, now + 900).is_ok());
    // With leeway, a slightly late clock is tolerated.
    let config = TokenVerificationConfig::asymmetric(kp.public_bytes().clone());
    let lenient = AuthTokenVerifier::verification_config(config).with_leeway(5);
    assert!(lenient.verify(&token, now + 904).is_ok());
}

#[test]
fn access_token_rejected_under_wrong_key() {
    let now = unix_now();
    let kp = generate_keypair().unwrap();
    let other = generate_keypair().unwrap();
    let id_str = uuid_to_string(9);
    let token = bearer("carol", &id_str, &kp, now).unwrap();

    let config = TokenVerificationConfig::asymmetric(other.public_bytes().clone());
    let verifier = AuthTokenVerifier::verification_config(config);
    assert!(verifier.verify(&token, now).is_err());
}

#[test]
fn refresh_token_round_trips_claims() {
    let now = unix_now();
    let key = generate_symmetric_key().unwrap();
    let user_id: u128 = 42;
    let meta = refresh(&key, user_id, 3, now).unwrap();
    assert!(meta.token.starts_with("v4.local."));
    assert_eq!(meta.user_id, user_id);
    assert_eq!(meta.issued_at, now);
    assert_eq!(meta.exp, now + 1_209_600);
    assert_eq!(meta.jti.len(), 36);

    let unverified = UnverifiedRefreshToken::new(meta.token.clone());
    let subject = uuid_to_string(user_id);
    let claims = validate_refresh(&key, &unverified, &subject, 3, now).unwrap();
    assert_eq!(claims.subject.as_deref(), Some(subject.as_str()));
    assert_eq!(claims.version, Some(3));
    assert_eq!(claims.jti.as_deref(), Some(meta.jti.as_str()));
    assert_eq!(claims.expiry, now + 1_209_600);
}

#[test]
fn refresh_token_version_mismatch_is_rejected() {
    let now = unix_now();
    let key = generate_symmetric_key().unwrap();
    let meta = refresh(&key, 42, 3, now).unwrap();
    let unverified = UnverifiedRefreshToken::new(meta.token.clone());
    let subject = uuid_to_string(42);

    // The token decrypts, but its version claim no longer matches the
    // advanced counter: rotation has made it permanently invalid.
    assert!(validate_refresh(&key, &unverified, &subject, 4, now).is_err());
    // The matching version still validates: the cryptography is intact.
    assert!(validate_refresh(&key, &unverified, &subject, 3, now).is_ok());
    // A wrong subject is rejected too.
    let other = uuid_to_string(43);
    assert!(validate_refresh(&key, &unverified, &other, 3, now).is_err());
}

#[test]
fn refresh_token_rejected_under_wrong_key() {
    let now = unix_now();
    let key = generate_symmetric_key().unwrap();
    let other = generate_symmetric_key().unwrap();
    let meta = refresh(&key, 42, 1, now).unwrap();
    let unverified = UnverifiedRefreshToken::new(meta.token.clone());
    let subject = uuid_to_string(42);
    assert!(validate_refresh(&other, &unverified, &subject, 1, now).is_err());
}

#[test]
fn footer_carries_the_issuing_key_identifier() {
    let now = unix_now();
    let kp = generate_keypair().unwrap();
    let key = generate_symmetric_key().unwrap();
    let id_str = uuid_to_string(1);

    let access = bearer("dave", &id_str, &kp, now).unwrap();
    let kid = extract_footer_kid(&access, false).unwrap();
    assert_eq!(kid, derive_public_kid(kp.public_bytes()));
    assert!(kid.starts_with("k4.pid."));

    let meta = refresh(&key, 1, 1, now).unwrap();
    let kid = extract_footer_kid(&meta.token, true).unwrap();
    assert!(kid.starts_with("k4.lid."));
}

#[test]
fn key_identifiers_are_deterministic_and_key_specific() {
    let now = unix_now();
    let kp = generate_keypair().unwrap();
    let again = derive_public_kid(kp.public_bytes());
    assert_eq!(derive_public_kid(kp.public_bytes()), again);

    let other = generate_keypair().unwrap();
    assert_ne!(
        derive_public_kid(kp.public_bytes()),
        derive_public_kid(other.public_bytes())
    );

    let sym = generate_symmetric_key().unwrap();
    let lid = {
        let meta = refresh(&sym, 5, 1, now).unwrap();
        extract_footer_kid(&meta.token, true).unwrap()
    };
    let meta2 = refresh(&sym, 5, 2, now).unwrap();
    assert_eq!(extract_footer_kid(&meta2.token, true).unwrap(), lid);

    let serialized = serialize_public_key(kp.public_bytes());
    assert!(serialized.starts_with("k4.public."));
    assert_ne!(serialized, derive_public_kid(kp.public_bytes()));
}

#[test]
fn version_and_type_markers_parse() {
    assert_eq!(verify_version("v4.local.payload"), Ok(TokenVersion::V4));
    assert_eq!(verify_version("v3.public.payload"), Ok(TokenVersion::V3));
    assert_eq!(verify_version("v2.x"), Ok(TokenVersion::V2));
    assert_eq!(verify_version("v1.x"), Ok(TokenVersion::V1));
    assert!(verify_version("v5.local.x").is_err());
    assert!(verify_version("w4.local.x").is_err());
    assert!(verify_version("").is_err());
    assert!(verify_version("vv4.local").is_err());

    assert_eq!(verify_type("v4.local.payload"), Ok(TokenType::Local));
    assert_eq!(verify_type("v4.public.payload"), Ok(TokenType::Public));
    assert!(verify_type("v4.secret.payload").is_err());
    assert!(verify_type("v4").is_err());
    assert!(verify_type("").is_err());
}

#[test]
fn expiry_predicate_compares_against_the_clock() {
    let now = unix_now();
    let claims = TokenClaims {
        issuer: None,
        audience: None,
        subject: None,
        username: None,
        jti: None,
        version: None,
        expiry: now,
    };
    assert!(!expired(&claims, now));
    assert!(expired(&claims, now + 1));
    assert!(!expired(&claims, now - 1));
}

#[test]
fn uuid_text_form_is_canonical() {
    let s = uuid_to_string(0);
    assert_eq!(s, "00000000-0000-0000-0000-000000000000");
    let s = uuid_to_string(u128::MAX);
    assert_eq!(s, "ffffffff-ffff-ffff-ffff-ffffffffffff");
    assert_eq!(s.len(), 36);
}

#[test]
fn free_validators_check_issuer_and_expiry() {
    let now = unix_now();
    let kp = generate_keypair().unwrap();
    let key = generate_symmetric_key().unwrap();

    let id_str = uuid_to_string(11);
    let access = bearer("henry", &id_str, &kp, now).unwrap();
    let claims = verify_bearer(kp.public_bytes(), &access, now).unwrap();
    assert_eq!(claims.subject.as_deref(), Some(id_str.as_str()));
    assert!(verify_bearer(kp.public_bytes(), &access, now + 901).is_err());

    let meta = refresh(&key, 11, 1, now).unwrap();
    let claims = validate_token(&key, &meta.token, now).unwrap();
    assert_eq!(claims.issuer.as_deref(), Some("crabby-auth"));
    assert!(validate_token(&key, &meta.token, now + 1_209_601).is_err());
    assert!(validate_token(&key, &access, now).is_err());
}
