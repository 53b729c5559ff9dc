use argon2::password_hash::SaltString;
use argon2::{Argon2, PasswordHasher};
use base64::Engine;

use zero2prod::authentication::{
    authenticate_writer, authentication_outcome, basic_authentication, password_hash_to_check, validate_password, AuthenticationFailure,
    BasicAuthenticationError, CredentialsLookup, NewsletterWritersAuthenticationError, UnexpectedAuthenticationError,
    FALLBACK_PASSWORD_HASH,
};
use zero2prod::routes::admin::password::{reset_password, FormData, PasswordResetFailure};

fn phc_of(password: &str) -> String {
    let salt = SaltString::from_b64("c29tZXNhbHRzb21lc2FsdA").unwrap();
    Argon2::default().hash_password(password.as_bytes(), &salt).unwrap().to_string()
}

fn basic(credentials: &str) -> Vec<u8> {
    format!("Basic {}", base64::engine::general_purpose::STANDARD.encode(credentials)).into_bytes()
}

#[test]
fn basic_credentials_are_split_at_the_first_colon() {
    let header = basic("ursula:pass:word");
    let c = basic_authentication(Some(header.as_slice())).ok().unwrap();
    assert_eq!(c.username, "ursula");
    assert_eq!(c.raw_password, "pass:word");
}

#[test]
fn each_basic_authentication_error_has_its_input() {
    assert_eq!(basic_authentication(None).err().unwrap(), BasicAuthenticationError::MissingHeader);
    assert_eq!(basic_authentication(Some("Basic \u{e9}".as_bytes())).err().unwrap(), BasicAuthenticationError::NotVisibleAscii);
    assert_eq!(basic_authentication(Some(b"Bearer abc")).err().unwrap(), BasicAuthenticationError::NotBasicScheme);
    assert_eq!(basic_authentication(Some(b"Basic !!!")).err().unwrap(), BasicAuthenticationError::InvalidBase64);
    let not_utf8 = format!("Basic {}", base64::engine::general_purpose::STANDARD.encode([0xffu8, 0xfe])).into_bytes();
    assert_eq!(basic_authentication(Some(not_utf8.as_slice())).err().unwrap(), BasicAuthenticationError::InvalidUtf8);
    let header = basic("no colon");
    assert_eq!(basic_authentication(Some(header.as_slice())).err().unwrap(), BasicAuthenticationError::MissingColon);
    assert_eq!(BasicAuthenticationError::MissingColon.message(), "Both username and password must be provided");
}

#[test]
fn passwords_are_checked_against_their_hash() {
    let phc = phc_of("correct horse battery");
    assert_eq!(validate_password("correct horse battery", &phc).ok(), Some(true));
    assert_eq!(validate_password("wrong", &phc).ok(), Some(false));
    assert!(validate_password("anything", "not a hash").is_err());
}

#[test]
fn unknown_users_are_checked_against_the_fallback_hash() {
    assert_eq!(password_hash_to_check(&CredentialsLookup::UsernameNotFound), FALLBACK_PASSWORD_HASH);
    let found = CredentialsLookup::Found { user_id: uuid::Uuid::nil(), salted_password: "stored".to_string() };
    assert_eq!(password_hash_to_check(&found), "stored");
}

#[test]
fn authentication_outcome_orders_its_failures() {
    let id = uuid::Uuid::from_u128(7);
    let found = || CredentialsLookup::Found { user_id: id, salted_password: String::new() };
    assert!(matches!(authentication_outcome(found(), Some(Ok(true))), Ok(u) if u == id));
    assert!(matches!(
        authentication_outcome(found(), Some(Ok(false))),
        Err(NewsletterWritersAuthenticationError::Authentication(AuthenticationFailure::IncorrectPassword))
    ));
    assert!(matches!(
        authentication_outcome(CredentialsLookup::UsernameNotFound, Some(Ok(true))),
        Err(NewsletterWritersAuthenticationError::Authentication(AuthenticationFailure::UsernameNotFound))
    ));
    assert!(matches!(
        authentication_outcome(found(), None),
        Err(NewsletterWritersAuthenticationError::Unexpected(UnexpectedAuthenticationError::ValidationTaskFailed))
    ));
    assert!(matches!(
        authentication_outcome(CredentialsLookup::Unexpected(eyre::Report::msg("down")), None),
        Err(NewsletterWritersAuthenticationError::Unexpected(UnexpectedAuthenticationError::Lookup(_)))
    ));
}

fn form(old: &str, new: &str, confirm: &str) -> FormData {
    FormData { old_password: old.to_string(), new_password: new.to_string(), confirm_new_password: confirm.to_string() }
}

#[test]
fn a_reset_password_is_accepted_by_the_new_hash() {
    let stored = phc_of("old password 1");
    let hash = reset_password(&form("old password 1", "a new password!", "a new password!"), &stored).ok().unwrap();
    assert_eq!(validate_password("a new password!", &hash).ok(), Some(true));
    assert_eq!(validate_password("old password 1", &hash).ok(), Some(false));
}

#[test]
fn reset_password_refusals_come_in_order() {
    let stored = phc_of("old password 1");
    // Twelve graphemes is too short, even with a wrong current password.
    let short = reset_password(&form("wrong", "twelve chars", "x"), &stored).err().unwrap();
    assert!(matches!(short, PasswordResetFailure::Length(12)));
    assert_eq!(
        short.flash_message().unwrap(),
        "Password length must be between 12 and 129 characters in graphemes, but was 12."
    );
    let long = "p".repeat(129);
    assert!(matches!(reset_password(&form("old password 1", &long, &long), &stored), Err(PasswordResetFailure::Length(129))));
    let wrong = reset_password(&form("wrong", "a new password!", "a different one"), &stored).err().unwrap();
    assert!(matches!(wrong, PasswordResetFailure::IncorrectPassword));
    assert_eq!(wrong.flash_message().unwrap(), "Incorrect password.");
    let mismatch = reset_password(&form("old password 1", "a new password!", "a different one"), &stored).err().unwrap();
    assert!(matches!(mismatch, PasswordResetFailure::ConfirmationMismatch));
    assert_eq!(mismatch.flash_message().unwrap(), "New password does not match Confirm New password.");
    let broken = reset_password(&form("old password 1", "a new password!", "a new password!"), "not a hash").err().unwrap();
    assert!(matches!(broken, PasswordResetFailure::Validation(_)));
    assert!(broken.flash_message().is_none());
}

#[test]
fn an_unknown_name_is_checked_against_the_fallback_and_refused() {
    let lookup = CredentialsLookup::UsernameNotFound;
    let hash = password_hash_to_check(&lookup);
    let validation = validate_password("some password", &hash);
    assert_eq!(validation.as_ref().ok(), Some(&false));
    assert!(matches!(
        authentication_outcome(lookup, Some(validation)),
        Err(NewsletterWritersAuthenticationError::Authentication(AuthenticationFailure::UsernameNotFound))
    ));
}

#[test]
fn a_reset_password_is_hashed_with_a_fresh_salt() {
    let stored = phc_of("the same password");
    let same = form("the same password", "the same password", "the same password");
    let first = reset_password(&same, &stored).ok().unwrap();
    let second = reset_password(&same, &stored).ok().unwrap();
    assert_ne!(first, stored);
    assert_ne!(first, second);
    assert_eq!(validate_password("the same password", &first).ok(), Some(true));
    let salt = first.split('$').nth(4).unwrap();
    assert_eq!(salt.len(), 22);
}

#[test]
fn a_writer_is_authenticated_by_one_check_against_the_right_hash() {
    let id = uuid::Uuid::from_u128(9);
    let found = || CredentialsLookup::Found { user_id: id, salted_password: phc_of("right password") };
    assert!(matches!(authenticate_writer(found(), "right password"), Ok(u) if u == id));
    assert!(matches!(
        authenticate_writer(found(), "wrong password"),
        Err(NewsletterWritersAuthenticationError::Authentication(AuthenticationFailure::IncorrectPassword))
    ));
    assert!(matches!(
        authenticate_writer(CredentialsLookup::UsernameNotFound, "right password"),
        Err(NewsletterWritersAuthenticationError::Authentication(AuthenticationFailure::UsernameNotFound))
    ));
    assert!(matches!(
        authenticate_writer(CredentialsLookup::Unexpected(eyre::Report::msg("down")), "x"),
        Err(NewsletterWritersAuthenticationError::Unexpected(UnexpectedAuthenticationError::Lookup(_)))
    ));
    let broken = CredentialsLookup::Found { user_id: id, salted_password: "not a hash".to_string() };
    assert!(matches!(
        authenticate_writer(broken, "x"),
        Err(NewsletterWritersAuthenticationError::Unexpected(UnexpectedAuthenticationError::Validation(_)))
    ));
}
