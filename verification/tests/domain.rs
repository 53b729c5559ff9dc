use std::rc::Rc;

use zero2prod::domain::subscriber_name::{SUBSCRIBER_NAME_MAX_LENGTH, SUBSCRIBE_NAME_FORBIDDEN_CHARACTERS};
use zero2prod::domain::{
    NewSubscriber, NewSubscriberParseError, SubscriberEmail, SubscriberEmailParseError, SubscriberName,
    SubscriberNameParseError,
};
use zero2prod::hkt::RcHKT;
use zero2prod::routes::SubscribeFormData;

#[test]
fn subscriber_email_empty_string_is_rejected() {
    let email = "";
    assert!(SubscriberEmail::<RcHKT>::parse(Rc::<str>::from(email)).is_err());
}

#[test]
fn email_missing_at_symbol_is_rejected() {
    let email = "ursuladomain.com";
    assert!(SubscriberEmail::<RcHKT>::parse(Rc::<str>::from(email)).is_err());
}

#[test]
fn email_missing_subject_is_rejected() {
    let email = "@domain.com";
    assert!(SubscriberEmail::<RcHKT>::parse(Rc::<str>::from(email)).is_err());
}

#[test]
fn a_n_grapheme_long_name_is_valid() {
    let name = "a".repeat(SUBSCRIBER_NAME_MAX_LENGTH);
    assert!(SubscriberName::<RcHKT>::parse(Rc::<str>::from(name)).is_ok());
}

#[test]
fn a_name_longer_than_n_graphemes_is_rejected() {
    let name = "a".repeat(SUBSCRIBER_NAME_MAX_LENGTH + 1);
    assert!(SubscriberName::<RcHKT>::parse(Rc::<str>::from(name)).is_err());
}

#[test]
fn whitespace_only_names_are_rejected() {
    let name = " ".to_string();
    assert!(SubscriberName::<RcHKT>::parse(Rc::<str>::from(name)).is_err());
}

#[test]
fn subscriber_name_empty_string_is_rejected() {
    let name = "".to_string();
    assert!(SubscriberName::<RcHKT>::parse(Rc::<str>::from(name)).is_err());
}

#[test]
fn names_containing_an_invalid_character_are_rejected() {
    SUBSCRIBE_NAME_FORBIDDEN_CHARACTERS.iter().for_each(|name| {
        let name = name.to_string();
        assert!(SubscriberName::<RcHKT>::parse(Rc::<str>::from(name)).is_err());
    })
}

#[test]
fn a_valid_name_is_parsed_successfully() {
    let name = "Ursula Le Guin".to_string();
    assert!(SubscriberName::<RcHKT>::parse(Rc::<str>::from(name)).is_ok());
}

#[test]
fn accepted_name_keeps_its_text() {
    let name = SubscriberName::<RcHKT>::try_from("Ursula Le Guin").ok().unwrap();
    assert_eq!(name.as_str(), "Ursula Le Guin");
}

#[test]
fn name_errors_come_in_their_order_with_their_messages() {
    let blank = SubscriberName::<RcHKT>::try_from(" \t ").err().unwrap();
    assert_eq!(blank, SubscriberNameParseError::IsEmptyOrWhitespace);
    assert_eq!(blank.message(), "Name is empty or contains whitespace.");

    // Too long and forbidden at once: the length is checked first.
    let long_and_forbidden = format!("{}/", "a".repeat(SUBSCRIBER_NAME_MAX_LENGTH));
    let too_long = SubscriberName::<RcHKT>::try_from(long_and_forbidden).err().unwrap();
    assert_eq!(too_long, SubscriberNameParseError::IsTooLong);
    assert_eq!(too_long.message(), "Name is longer than 256");

    let forbidden = SubscriberName::<RcHKT>::try_from("Ursula {Le} Guin").err().unwrap();
    assert_eq!(forbidden, SubscriberNameParseError::ContainsForbiddenCharacters);
    assert_eq!(forbidden.message(), "Name must not contain forbidden characters: [/, (, ), \", <, >, \\, {, }]");
}

#[test]
fn names_are_measured_in_graphemes() {
    // "é" written as "e" and a combining accent is one grapheme of two characters.
    let name = "e\u{301}".repeat(SUBSCRIBER_NAME_MAX_LENGTH);
    assert!(SubscriberName::<RcHKT>::try_from(name.as_str()).is_ok());
    let longer = format!("{}x", name);
    assert_eq!(SubscriberName::<RcHKT>::try_from(longer).err().unwrap(), SubscriberNameParseError::IsTooLong);
}

#[test]
fn a_valid_email_is_parsed_and_keeps_its_text() {
    let email = SubscriberEmail::<RcHKT>::try_from("ursula@domain.com").ok().unwrap();
    assert_eq!(email.as_str(), "ursula@domain.com");
    assert_eq!(email.clone().as_str(), "ursula@domain.com");
}

#[test]
fn refused_email_names_itself_in_the_message() {
    let e = SubscriberEmail::<RcHKT>::try_from("ursuladomain.com".to_string()).err().unwrap();
    assert_eq!(e, SubscriberEmailParseError::Other("'ursuladomain.com' is not valid email.".to_string()));
    assert_eq!(e.message(), "'ursuladomain.com' is not valid email.");
}

#[test]
fn new_subscriber_checks_the_name_before_the_email() {
    let both_bad = SubscribeFormData { email: "nope".to_string(), name: "".to_string() };
    let e = NewSubscriber::<RcHKT>::try_from(both_bad).err().unwrap();
    assert_eq!(e, NewSubscriberParseError::SubscriberNameParseError(SubscriberNameParseError::IsEmptyOrWhitespace));
    assert_eq!(e.message(), "Name: Name is empty or contains whitespace.");

    let bad_email = SubscribeFormData { email: "nope".to_string(), name: "Ursula".to_string() };
    let e = NewSubscriber::<RcHKT>::try_from(bad_email).err().unwrap();
    assert_eq!(e.message(), "Email: 'nope' is not valid email.");

    let good = SubscribeFormData { email: "ursula@domain.com".to_string(), name: "Ursula".to_string() };
    let s = NewSubscriber::<RcHKT>::try_from(good).ok().unwrap();
    assert_eq!(s.name.as_str(), "Ursula");
    assert_eq!(s.email.as_str(), "ursula@domain.com");
}

#[test]
fn accepted_values_read_as_their_text() {
    let name = SubscriberName::<RcHKT>::try_from("Ursula").ok().unwrap();
    assert_eq!(&*name, "Ursula");
    let email = SubscriberEmail::<RcHKT>::try_from("ursula@domain.com").ok().unwrap();
    assert_eq!(email.len(), "ursula@domain.com".len());
}
