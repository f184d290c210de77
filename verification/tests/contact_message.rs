use zero2prod::domain::ContactMessage;

#[test]
fn a_1024_long_message_is_valid() {
    let message = "a".repeat(1024);
    assert!(ContactMessage::parse(message).is_ok());
}

#[test]
fn a_message_longer_than_256_is_rejected() {
    let message = "a".repeat(1025);
    assert!(ContactMessage::parse(message).is_err());
}

#[test]
fn whitespace_only_messages_are_rejected() {
    let message = " ".to_string();
    assert!(ContactMessage::parse(message).is_err());
}

#[test]
fn contact_message_empty_string_is_rejected() {
    let message = "".to_string();
    assert!(ContactMessage::parse(message).is_err());
}

#[test]
fn a_valid_message_is_parsed_successfully() {
    let message =
        "We are interested in a backend dev experienced in event driven systems".to_string();
    assert!(ContactMessage::parse(message).is_ok());
}

#[test]
fn a_message_with_an_angle_bracket_is_rejected() {
    let message = "hello <script>".to_string();
    let error = ContactMessage::parse(message).unwrap_err();
    assert_eq!(
        error,
        "Message contains illegal characters, please remove and try again."
    );
}

#[test]
fn the_message_survives_parsing_unchanged() {
    let message = ContactMessage::parse("hello there".to_string()).unwrap();
    assert_eq!(message.as_ref(), "hello there");
}
