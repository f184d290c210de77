use zero2prod::domain::VerifiedContactForm;
use zero2prod::email_client::{ApplicationBaseUrl, EmailClient};
use zero2prod::domain::UserEmail;
use zero2prod::routes::contact::{contact, ContactError, ContactFormData, ContactStore};
use zero2prod::routes::error_chain_fmt;

fn valid_form() -> ContactFormData {
    ContactFormData {
        name: "le guin".to_string(),
        email: "ursula_le_guin@gmail.com".to_string(),
        message: "We are interested in a backend dev experienced in event driven systems"
            .to_string(),
    }
}

#[test]
fn a_valid_contact_submission_is_stored_and_acknowledged() {
    let mut store = ContactStore::new();
    let response = contact(&mut store, valid_form());
    assert_eq!(response.status, 200);
    assert_eq!(response.body, "");
    assert_eq!(store.contact_count(), 1);
}

#[test]
fn a_second_submission_from_the_same_address_is_a_conflict() {
    let mut store = ContactStore::new();
    contact(&mut store, valid_form());
    let response = contact(&mut store, valid_form());
    assert_eq!(response.status, 409);
    let expected = "{\"reason\":\"It appears that you have already reached out. \
We will get in touch at our earliest convenience.\"}";
    assert_eq!(response.body, expected);
    assert_eq!(store.contact_count(), 1);
}

#[test]
fn a_different_address_is_a_fresh_contact() {
    let mut store = ContactStore::new();
    contact(&mut store, valid_form());
    let mut other = valid_form();
    other.email = "other@example.com".to_string();
    let response = contact(&mut store, other);
    assert_eq!(response.status, 200);
    assert_eq!(store.contact_count(), 2);
}

#[test]
fn an_invalid_contact_submission_is_rejected_with_the_reason() {
    let mut store = ContactStore::new();
    let mut form = valid_form();
    form.message = String::new();
    let response = contact(&mut store, form);
    assert_eq!(response.status, 400);
    assert_eq!(
        response.body,
        "{\"reason\":\"Please provide a message to assist in .\"}"
    );
    assert_eq!(store.contact_count(), 0);
}

#[test]
fn the_rejection_reason_is_json_escaped() {
    let mut store = ContactStore::new();
    let mut form = valid_form();
    form.email = "u\"x@example.com".to_string();
    let response = contact(&mut store, form);
    assert_eq!(response.status, 400);
    let reason = "u\"x@example.com is not a valid email.".to_string();
    let expected = format!("{{\"reason\":{}}}", serde_json::to_string(&reason).unwrap());
    assert_eq!(response.body, expected);
}

#[test]
fn contact_error_status_codes() {
    assert_eq!(
        ContactError::ValidationError("x".to_string()).status_code(),
        400
    );
    assert_eq!(
        ContactError::UnexpectedError("x".to_string()).status_code(),
        500
    );
}

#[test]
fn try_from_validates_name_then_email_then_message() {
    let mut form = valid_form();
    form.message = " ".to_string();
    assert_eq!(
        VerifiedContactForm::try_from(form).unwrap_err(),
        "Please provide a message to assist in ."
    );
    let mut form = valid_form();
    form.email = "nope".to_string();
    assert_eq!(
        VerifiedContactForm::try_from(form).unwrap_err(),
        "nope is not a valid email."
    );
}

#[test]
fn error_chain_fmt_renders_the_chain() {
    let rendered = error_chain_fmt(
        &"boom".to_string(),
        &vec!["cause one".to_string(), "cause two".to_string()],
    );
    assert_eq!(
        rendered,
        "boom\n\nCaused by:\n\tcause one\nCaused by:\n\tcause two\n"
    );
}

#[test]
fn the_base_url_rejects_an_empty_string() {
    assert_eq!(
        ApplicationBaseUrl::parse("".to_string()).unwrap_err(),
        "Url cannot be empty"
    );
    let url = ApplicationBaseUrl::parse("https://example.com".to_string()).unwrap();
    assert_eq!(url.as_ref(), "https://example.com");
}

#[test]
fn the_email_client_builds_the_send_request() {
    let client = EmailClient::new(
        ApplicationBaseUrl::parse("https://api.example.com".to_string()).unwrap(),
        UserEmail::parse("sender@example.com".to_string()).unwrap(),
    );
    assert_eq!(client.email_endpoint(), "https://api.example.com/email");
    let request = client.build_request("to@example.com", "Hi", "<p>t</p>", "t");
    assert_eq!(request.from, "sender@example.com");
    assert_eq!(request.to, "to@example.com");
    assert_eq!(request.subject, "Hi");
    assert_eq!(request.html_body, "<p>t</p>");
    assert_eq!(request.text_body, "t");
    assert_eq!(request.message_stream, "outbound");
}
