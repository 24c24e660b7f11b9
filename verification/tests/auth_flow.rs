//! End-to-end flows through the authenticator: registration, conflicts,
//! login, refresh rotation and public-key disclosure.

use crabby_auth::authenticate::Authenticator;
use crabby_auth::domain::RegisterRequestData;
use crabby_auth::errors::AuthError;
use crabby_auth::token::UnverifiedRefreshToken;

fn unix_now() -> i64 {
    std::time::SystemTime::now()
        .duration_since(std::time::UNIX_EPOCH)
        .unwrap()
        .as_secs() as i64
}

fn request(username: &str, email: &str, password: &str) -> RegisterRequestData {
    RegisterRequestData::new(username.to_string(), email.to_string(), password.to_string())
}

#[test]
fn scenario_register_conflict_login_refresh() {
    let now = unix_now();
    let mut auth = Authenticator::new().unwrap();

    // Register alice: success with non-empty access and refresh tokens.
    let out = auth
        .register(request("alice", "alice@example.com", "password123"), now)
        .unwrap();
    assert!(!out.bearer.is_empty());
    assert!(!out.refresh.is_empty());
    assert_eq!(out.username, "alice");

    // Same username, different email: a credential conflict.
    let err = auth
        .register(request("alice", "other@example.com", "password123"), now)
        .unwrap_err();
    assert_eq!(err, AuthError::CredentialConflict);

    // Wrong password: an authentication failure.
    let err = auth.login("alice", "wrongpass", now).unwrap_err();
    assert_eq!(err, AuthError::AuthenticationFailure);

    // Right password: success.
    let login = auth.login("alice", "password123", now).unwrap();
    assert_eq!(login.user_id, out.user_id);
    assert_eq!(login.username, "alice");
    assert!(!login.bearer.is_empty());

    // Refresh with the token from registration: success, and the new
    // refresh token is textually different from the original.
    let first = UnverifiedRefreshToken::new(out.refresh.clone());
    let rotated = auth.refresh(out.user_id, &first, now).unwrap();
    assert!(!rotated.bearer.is_empty());
    assert_ne!(rotated.refresh, out.refresh);

    // Refresh again with the original, now superseded, token: rejected.
    let stale = UnverifiedRefreshToken::new(out.refresh.clone());
    let err = auth.refresh(out.user_id, &stale, now).unwrap_err();
    assert_eq!(err, AuthError::AuthenticationFailure);

    // The rotated token still works.
    let second = UnverifiedRefreshToken::new(rotated.refresh.clone());
    let again = auth.refresh(out.user_id, &second, now).unwrap();
    assert_ne!(again.refresh, rotated.refresh);
}

#[test]
fn registered_user_is_retrievable_by_id() {
    let now = unix_now();
    let mut auth = Authenticator::new().unwrap();
    let out = auth
        .register(request("carol", "carol@example.com", "hunter2hunter2"), now)
        .unwrap();
    let row = auth.user_from_id(out.user_id).unwrap();
    assert_eq!(row.user_id, out.user_id);
    assert_eq!(row.username, "carol");
    assert_eq!(row.email, "carol@example.com");
    assert_ne!(row.password_hash, "hunter2hunter2");
}

#[test]
fn duplicate_registration_leaves_count_unchanged() {
    let now = unix_now();
    let mut auth = Authenticator::new().unwrap();
    auth.register(request("david", "david@example.com", "password123"), now)
        .unwrap();
    assert_eq!(auth.user_count(), 1);
    let err = auth
        .register(request("david", "second@example.com", "password123"), now)
        .unwrap_err();
    assert_eq!(err, AuthError::CredentialConflict);
    assert_eq!(auth.user_count(), 1);

    // A duplicate email is a conflict as well.
    let err = auth
        .register(request("david2", "david@example.com", "password123"), now)
        .unwrap_err();
    assert_eq!(err, AuthError::CredentialConflict);
    assert_eq!(auth.user_count(), 1);
}

#[test]
fn login_unknown_username_fails_like_wrong_password() {
    let now = unix_now();
    let auth = Authenticator::new().unwrap();
    let err = auth.login("nobody", "password123", now).unwrap_err();
    assert_eq!(err, AuthError::AuthenticationFailure);
    assert_eq!(err.message(), "could not authenticate");
}

#[test]
fn refresh_for_unknown_user_fails() {
    let now = unix_now();
    let mut auth = Authenticator::new().unwrap();
    let token = UnverifiedRefreshToken::new("v4.local.garbage".to_string());
    let err = auth.refresh(12345, &token, now).unwrap_err();
    assert_eq!(err, AuthError::AuthenticationFailure);
}

#[test]
fn refresh_with_garbage_token_fails() {
    let now = unix_now();
    let mut auth = Authenticator::new().unwrap();
    let out = auth
        .register(request("erica", "erica@example.com", "password123"), now)
        .unwrap();
    let token = UnverifiedRefreshToken::new("not even a token".to_string());
    let err = auth.refresh(out.user_id, &token, now).unwrap_err();
    assert_eq!(err, AuthError::AuthenticationFailure);
}

#[test]
fn expired_refresh_token_is_rejected() {
    let now = unix_now();
    let mut auth = Authenticator::new().unwrap();
    let out = auth
        .register(request("frank", "frank@example.com", "password123"), now)
        .unwrap();
    let token = UnverifiedRefreshToken::new(out.refresh.clone());
    // Fourteen days and one second later, the refresh token has expired.
    let later = now + 1_209_601;
    let err = auth.refresh(out.user_id, &token, later).unwrap_err();
    assert_eq!(err, AuthError::AuthenticationFailure);
}

#[test]
fn public_key_served_only_for_exact_identifier() {
    let now = unix_now();
    // The key's own identifier, as embedded in a minted access token's
    // footer, unlocks the serialized key.
    let mut probe = Authenticator::new().unwrap();
    let out = probe
        .register(request("grace", "grace@example.com", "password123"), now)
        .unwrap();
    let kid = crabby_auth::token::extract_footer_kid(&out.bearer, false).unwrap();
    let serialized = probe.public_key(&kid).unwrap();
    assert!(serialized.starts_with("k4.public."));

    // The identifier of some other authenticator's key is a permission
    // failure here.
    let other = Authenticator::new().unwrap();
    assert!(other.public_key(&kid).is_err());

    // So is a well-formed but wrong identifier.
    assert_eq!(
        probe.public_key("k4.pid.AAAAAAAAAAAAAAAAAAAAAAAAAAAAAAAAAAAAAAAAAAAA"),
        Err(AuthError::AuthenticationFailure)
    );
}

#[test]
fn validation_errors_are_reported_before_anything_is_stored() {
    let now = unix_now();
    let mut auth = Authenticator::new().unwrap();
    let err = auth
        .register(request("abc", "abc@example.com", "password123"), now)
        .unwrap_err();
    assert!(matches!(err, AuthError::Validation(_)));
    let err = auth
        .register(request("validname", "not-an-email", "password123"), now)
        .unwrap_err();
    assert!(matches!(err, AuthError::Validation(_)));
    let err = auth
        .register(request("validname", "ok@example.com", "short"), now)
        .unwrap_err();
    assert!(matches!(err, AuthError::Validation(_)));
    assert_eq!(auth.user_count(), 0);
}

#[test]
fn many_registrations_then_logins() {
    let now = unix_now();
    let mut auth = Authenticator::new().unwrap();
    let users = ["ulrich", "amelia", "birgit", "casper", "dorian", "edmund"];
    let mut ids = Vec::new();
    for (i, name) in users.iter().enumerate() {
        let email = format!("{name}@example.com");
        let password = format!("pw-{name}-{i}-longenough");
        let out = auth.register(request(name, &email, &password), now).unwrap();
        ids.push(out.user_id);
    }
    assert_eq!(auth.user_count(), users.len());
    for (i, name) in users.iter().enumerate() {
        let password = format!("pw-{name}-{i}-longenough");
        let login = auth.login(name, &password, now).unwrap();
        assert_eq!(login.user_id, ids[i]);
        assert_eq!(&login.username, name);
    }
}

#[test]
fn issued_access_token_verifies_through_the_key_repository() {
    let now = unix_now();
    let mut auth = Authenticator::new().unwrap();
    let out = auth
        .register(request("henry", "henry@example.com", "password123"), now)
        .unwrap();

    let claims = auth.verify_access(&out.bearer, now).unwrap();
    let expected_subject = format!("{}", uuid::Uuid::from_u128(out.user_id).hyphenated());
    assert_eq!(claims.subject.as_deref(), Some(expected_subject.as_str()));
    assert_eq!(claims.username.as_deref(), Some("henry"));

    // After its fifteen minutes, the same token is rejected.
    assert!(auth.verify_access(&out.bearer, now + 901).is_err());

    // A token signed by some other service's key does not resolve here.
    let mut foreign = Authenticator::new().unwrap();
    let other = foreign
        .register(request("irene", "irene@example.com", "password123"), now)
        .unwrap();
    assert!(matches!(
        auth.verify_access(&other.bearer, now),
        Err(AuthError::KeyResolution)
    ));
}
