use zero2prod::domain::UserName;

#[test]
fn a_256_long_user_name_is_valid() {
    let name = "a\u{0303}".repeat(256);
    assert!(UserName::parse(name).is_ok());
}

#[test]
fn a_user_name_longer_than_256_is_rejected() {
    let name = "a".repeat(257);
    assert!(UserName::parse(name).is_err());
}

#[test]
fn whitespace_only_names_are_rejected() {
    let name = " ".to_string();
    assert!(UserName::parse(name).is_err());
}

#[test]
fn user_name_empty_string_is_rejected() {
    let name = "".to_string();
    assert!(UserName::parse(name).is_err());
}

#[test]
fn names_containing_an_invalid_character_are_rejected() {
    for name in &['/', '(', ')', '"', '<', '>', '\\', '{', '}'] {
        let name = name.to_string();
        assert!(UserName::parse(name).is_err());
    }
}

#[test]
fn a_valid_name_is_parsed_successfully() {
    let name = "Ursula Le Guin".to_string();
    assert!(UserName::parse(name).is_ok());
}

#[test]
fn a_long_name_is_rejected_with_the_shorter_name_message() {
    let name = "a".repeat(257);
    let error = UserName::parse(name).unwrap_err();
    assert_eq!(error, "Please enter a shorter name.");
}

#[test]
fn the_name_survives_parsing_unchanged() {
    let name = UserName::parse("Ursula Le Guin".to_string()).unwrap();
    assert_eq!(name.as_ref(), "Ursula Le Guin");
}
