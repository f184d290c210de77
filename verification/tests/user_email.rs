use zero2prod::domain::{SubscriberName, UserEmail};

#[test]
fn user_email_empty_string_is_rejected() {
    let email = "".to_string();
    assert!(UserEmail::parse(email).is_err());
}

#[test]
fn email_missing_at_symbol_is_rejected() {
    let email = "ursuladomain.com".to_string();
    assert!(UserEmail::parse(email).is_err());
}

#[test]
fn email_missing_subject_is_rejected() {
    let email = "@domain.com".to_string();
    assert!(UserEmail::parse(email).is_err());
}

#[test]
fn a_valid_email_is_parsed_successfully() {
    let email = UserEmail::parse("ursula_le_guin@gmail.com".to_string()).unwrap();
    assert_eq!(email.as_ref(), "ursula_le_guin@gmail.com");
}

#[test]
fn a_rejected_email_names_itself_in_the_message() {
    let error = UserEmail::parse("ursuladomain.com".to_string()).unwrap_err();
    assert_eq!(error, "ursuladomain.com is not a valid email.");
}

#[test]
fn a_subscriber_name_is_parsed_like_a_user_name() {
    assert!(SubscriberName::parse("Ursula Le Guin".to_string()).is_ok());
    assert!(SubscriberName::parse("".to_string()).is_err());
    assert!(SubscriberName::parse("ursula/le/guin".to_string()).is_err());
}
