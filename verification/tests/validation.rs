//! Shape validation of usernames, email addresses and passwords.

use crabby_auth::domain::{
    check_email, check_password, check_username, EmailAddress, Password, RegisterRequestData,
    Username,
};
use crabby_auth::errors::{AuthError, ValidationKind};

#[test]
fn username_length_bounds() {
    assert!(!check_username(""));
    assert!(!check_username("abcd"));
    assert!(check_username("abcde"));
    assert!(check_username("exactly_20_chars_abc"));
    assert!(!check_username("this_name_is_21_chars"));
}

#[test]
fn password_length_bound() {
    assert!(!check_password(""));
    assert!(!check_password("1234567"));
    assert!(check_password("12345678"));
    assert!(check_password("password123"));
}

#[test]
fn email_accepts_common_addresses() {
    assert!(check_email("alice@example.com"));
    assert!(check_email("a@b"));
    assert!(check_email("first.last+tag@sub.example-host.org"));
    assert!(check_email("UPPER_case%99@Example.COM"));
}

#[test]
fn email_rejects_malformed_addresses() {
    assert!(!check_email(""));
    assert!(!check_email("no-at-sign"));
    assert!(!check_email("@nodomain.com"));
    assert!(!check_email("nolocal@"));
    assert!(!check_email("two@@ats.com"));
    assert!(!check_email("a@b@c"));
    assert!(!check_email("dots@a..b"));
    assert!(!check_email("edge@.leading"));
    assert!(!check_email("edge@trailing."));
    assert!(!check_email("dash@-leading"));
    assert!(!check_email("dash@trailing-"));
    assert!(!check_email("space in@local.com"));
    assert!(!check_email("umlaut@dömain.de"));
}

#[test]
fn validate_reports_first_failing_field() {
    let bad_username =
        RegisterRequestData::new("abc".into(), "x@example.com".into(), "password123".into());
    assert_eq!(
        bad_username.validate(),
        Err(AuthError::Validation(ValidationKind::UsernameLength))
    );

    let bad_email =
        RegisterRequestData::new("validname".into(), "nope".into(), "password123".into());
    assert_eq!(
        bad_email.validate(),
        Err(AuthError::Validation(ValidationKind::EmailFormat))
    );

    let bad_password =
        RegisterRequestData::new("validname".into(), "x@example.com".into(), "short".into());
    assert_eq!(
        bad_password.validate(),
        Err(AuthError::Validation(ValidationKind::PasswordLength))
    );

    let fine = RegisterRequestData::new(
        "validname".into(),
        "x@example.com".into(),
        "password123".into(),
    );
    assert_eq!(fine.validate(), Ok(()));
}

#[test]
fn newtype_conversions_keep_the_text() {
    let u = Username::from("somebody".to_string());
    assert_eq!(u.username, "somebody");
    let e = EmailAddress::from("a@b.c".to_string());
    assert_eq!(e.email, "a@b.c");
    let p = Password::from("secretsecret".to_string());
    assert_eq!(p.password, "secretsecret");
}

#[test]
fn error_messages_are_uniform_for_auth_failures() {
    assert_eq!(
        AuthError::AuthenticationFailure.message(),
        AuthError::KeyResolution.message()
    );
    assert_ne!(
        AuthError::CredentialConflict.message(),
        AuthError::AuthenticationFailure.message()
    );
}

#[test]
fn email_part_length_bounds() {
    // A local part of 64 characters is accepted; 65 is not.
    let local64: String = "a".repeat(64);
    assert!(check_email(&format!("{local64}@example.com")));
    let local65: String = "a".repeat(65);
    assert!(!check_email(&format!("{local65}@example.com")));

    // A domain of 255 characters is accepted; 256 is not.
    let label63: String = "d".repeat(63);
    let domain255 = format!("{label63}.{label63}.{label63}.{label63}");
    assert_eq!(domain255.len(), 255);
    assert!(check_email(&format!("user@{domain255}")));
    let domain256 = format!("x{domain255}");
    assert!(!check_email(&format!("user@{domain256}")));
}

#[test]
fn username_length_counts_characters_not_bytes() {
    // Five two-byte characters are five characters.
    assert!(check_username("ää\u{e9}\u{e9}\u{fc}"));
    assert!(!check_username("ää\u{e9}\u{e9}"));
}
