use std::sync::Arc;

use zero2prod::configuration::{DatabaseSettings, EmailClientSettings, Environment, LogLevel, SslMode};
use zero2prod::hkt::{ArcHKT, K1};
use zero2prod::idempotency::{IdempotencyKey, IdempotencyKeyError, IDEMPOTENCY_KEY_MAX_LENGTH};

fn text(s: &str) -> K1<ArcHKT, str> {
    K1::newtype(Arc::<str>::from(s))
}

#[test]
fn environment_names_are_read_in_any_case() {
    assert_eq!(Environment::try_from("local".to_string()), Ok(Environment::Local));
    assert_eq!(Environment::try_from("PRODUCTION".to_string()), Ok(Environment::Production));
    assert_eq!(Environment::try_from("Local".to_string()), Ok(Environment::Local));
}

#[test]
fn unknown_environment_is_refused_with_its_lowercase_name() {
    assert_eq!(
        Environment::try_from("Staging".to_string()),
        Err("staging is not a supported environment. Use either `local` or `production`.".to_string())
    );
}

#[test]
fn environment_name_reads_back_as_itself() {
    for e in [Environment::Local, Environment::Production] {
        assert_eq!(Environment::try_from(e.as_str().to_string()), Ok(e));
    }
    assert_eq!(Environment::Local.as_str(), "local");
    assert_eq!(Environment::Production.as_str(), "production");
}

#[test]
fn email_client_settings_give_timeout_and_sender() {
    let settings = EmailClientSettings::<ArcHKT>::new(text("http://localhost"), text("sender@domain.com"), text("token"), 2500);
    assert_eq!(settings.timeout(), std::time::Duration::from_millis(2500));
    assert_eq!(settings.sender().ok().unwrap().as_str(), "sender@domain.com");

    let bad = EmailClientSettings::<ArcHKT>::new(text("http://localhost"), text("sender"), text("token"), 10);
    assert_eq!(bad.sender().err().unwrap().message(), "'sender' is not valid email.");
    let copy = bad.clone();
    assert_eq!(&*copy.sender_email, "sender");
}

#[test]
fn database_ssl_mode_follows_the_settings() {
    let strict = DatabaseSettings::<ArcHKT>::new(text("user"), text("pw"), 5432, text("db.example"), text("newsletter"), true);
    assert_eq!(strict.ssl_mode(), SslMode::Require);
    let relaxed = DatabaseSettings::<ArcHKT>::new(text("user"), text("pw"), 5432, text("localhost"), text("newsletter"), false);
    assert_eq!(relaxed.ssl_mode(), SslMode::Prefer);
    let without_settings = strict.without_db();
    assert_eq!(without_settings.host, "db.example");
    assert_eq!(without_settings.password, "pw");
    assert_eq!(without_settings.ssl_mode, SslMode::Require);
    assert_eq!(without_settings.database, None);
    assert_eq!(without_settings.log_level, None);
    let without = without_settings.connect_options();
    assert_eq!(without.get_host(), "db.example");
    assert_eq!(without.get_port(), 5432);
    assert_eq!(without.get_username(), "user");
    assert_eq!(without.get_database(), None);
    assert!(matches!(without.get_ssl_mode(), sqlx::postgres::PgSslMode::Require));
    let with_settings = relaxed.with_db();
    assert_eq!(with_settings.database.as_deref(), Some("newsletter"));
    assert_eq!(with_settings.log_level, Some(LogLevel::Trace));
    assert_eq!(with_settings.ssl_mode, SslMode::Prefer);
    let with = with_settings.connect_options();
    assert_eq!(with.get_database(), Some("newsletter"));
    assert!(matches!(with.get_ssl_mode(), sqlx::postgres::PgSslMode::Prefer));
}

#[test]
fn idempotency_keys_are_one_to_fifty_bytes() {
    assert_eq!(IdempotencyKey::try_from("").err().unwrap(), IdempotencyKeyError::Empty);
    let longest = "k".repeat(IDEMPOTENCY_KEY_MAX_LENGTH);
    assert_eq!(IdempotencyKey::try_from(longest.clone()).ok().unwrap().as_str(), longest);
    let too_long = "k".repeat(IDEMPOTENCY_KEY_MAX_LENGTH + 1);
    assert_eq!(IdempotencyKey::try_from(too_long).err().unwrap(), IdempotencyKeyError::TooLong);
    // Twenty-five two-byte characters are fifty bytes; twenty-six are too many.
    assert!(IdempotencyKey::try_from("é".repeat(25).as_str()).is_ok());
    assert_eq!(IdempotencyKey::try_from("é".repeat(26).as_str()).err().unwrap(), IdempotencyKeyError::TooLong);
    assert_eq!(IdempotencyKeyError::Empty.message(), "Idempotency key cannot be empty.");
    assert_eq!(IdempotencyKeyError::TooLong.message(), "Idempotency key cannot be longer than 50 chars.");
}
