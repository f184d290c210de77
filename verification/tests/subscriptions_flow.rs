use zero2prod::domain::{NewSubscriber, UserEmail};
use zero2prod::email_client::{ApplicationBaseUrl, EmailClient};
use zero2prod::idempotency::IdempotencyStore;
use zero2prod::issues::IssueStore;
use zero2prod::outbox::OutboxStore;
use zero2prod::publish::{publish_newsletter, PublishFormData};
use zero2prod::routes::subscriptions::{
    generate_subscription_token, subscribe, SubscribeError, SubscriptionFormData,
};
use zero2prod::routes::subscriptions_confirm::{confirm, ConfirmSubscriptionError, Parameters};
use zero2prod::subscribers::{SubscriberDirectory, SubscriberStatus};

fn email_client() -> EmailClient {
    EmailClient::new(
        ApplicationBaseUrl::parse("https://api.postmarkapp.example".to_string()).unwrap(),
        UserEmail::parse("sender@example.com".to_string()).unwrap(),
    )
}

fn base_url() -> ApplicationBaseUrl {
    ApplicationBaseUrl::parse("https://newsletter.example.com".to_string()).unwrap()
}

fn guin_form() -> SubscriptionFormData {
    SubscriptionFormData {
        email: "ursula_le_guin@gmail.com".to_string(),
        name: "le guin".to_string(),
    }
}

#[test]
fn subscribe_stores_a_pending_subscriber_and_builds_the_confirmation_email() {
    let mut directory = SubscriberDirectory::new();
    let request = subscribe(&mut directory, &email_client(), &base_url(), guin_form()).unwrap();

    assert_eq!(directory.subscriber_count(), 1);
    let subscriber = directory.subscriber_at(0);
    assert_eq!(subscriber.email, "ursula_le_guin@gmail.com");
    assert_eq!(subscriber.name, "le guin");
    assert_eq!(subscriber.status, SubscriberStatus::PendingConfirmation);

    assert_eq!(directory.token_count(), 1);
    let token = directory.token_at(0).subscription_token.clone();
    assert_eq!(token.len(), 25);
    assert!(token.chars().all(|c| c.is_ascii_alphanumeric()));
    assert_eq!(directory.token_at(0).subscriber_id, subscriber.id);

    assert_eq!(request.from, "sender@example.com");
    assert_eq!(request.to, "ursula_le_guin@gmail.com");
    assert_eq!(request.subject, "Welcome!");
    assert_eq!(request.message_stream, "outbound");
    let link = format!(
        "https://newsletter.example.com/subscriptions/confirm?subscription_token={}",
        token
    );
    assert_eq!(
        request.text_body,
        format!("Welcome to our newsletter!\nVisit {} to confirm your subscription", link)
    );
    assert_eq!(
        request.html_body,
        format!(
            "Welcome to our newsletter!<br />Click <a href=\"{}\">here</a> to confirm your subscription.",
            link
        )
    );
}

#[test]
fn subscribe_rejects_an_invalid_name() {
    let mut directory = SubscriberDirectory::new();
    let form = SubscriptionFormData {
        email: "ursula_le_guin@gmail.com".to_string(),
        name: " ".to_string(),
    };
    match subscribe(&mut directory, &email_client(), &base_url(), form) {
        Err(SubscribeError::ValidationError(message)) => {
            assert_eq!(message, "User name cannot be empty");
        }
        _ => panic!("a blank name was not rejected as a validation error"),
    }
    assert_eq!(directory.subscriber_count(), 0);
    assert_eq!(directory.token_count(), 0);
}

#[test]
fn subscribe_rejects_an_invalid_email() {
    let mut directory = SubscriberDirectory::new();
    let form = SubscriptionFormData {
        email: "definitely-not-an-email".to_string(),
        name: "le guin".to_string(),
    };
    match subscribe(&mut directory, &email_client(), &base_url(), form) {
        Err(SubscribeError::ValidationError(message)) => {
            assert_eq!(message, "definitely-not-an-email is not a valid email.");
        }
        _ => panic!("an invalid email was not rejected as a validation error"),
    }
    assert_eq!(directory.subscriber_count(), 0);
}

#[test]
fn subscribing_the_same_email_twice_fails() {
    let mut directory = SubscriberDirectory::new();
    subscribe(&mut directory, &email_client(), &base_url(), guin_form()).unwrap();
    match subscribe(&mut directory, &email_client(), &base_url(), guin_form()) {
        Err(SubscribeError::UnexpectedError(message)) => {
            assert_eq!(message, "Failed to insert new subscriber in the database.");
        }
        _ => panic!("a duplicate subscription was not refused"),
    }
    assert_eq!(directory.subscriber_count(), 1);
    assert_eq!(directory.token_count(), 1);
}

#[test]
fn an_unknown_token_is_unauthorized() {
    let mut directory = SubscriberDirectory::new();
    let parameters = Parameters {
        subscription_token: "mystery".to_string(),
    };
    match confirm(&mut directory, &parameters) {
        Err(ConfirmSubscriptionError::Unauthorized(message)) => {
            assert_eq!(
                message,
                "The subscription token is not associated with any subscriber."
            );
        }
        _ => panic!("an unknown token was not refused as unauthorized"),
    }
}

#[test]
fn confirmation_marks_the_subscriber_confirmed() {
    let mut directory = SubscriberDirectory::new();
    subscribe(&mut directory, &email_client(), &base_url(), guin_form()).unwrap();
    let parameters = Parameters {
        subscription_token: directory.token_at(0).subscription_token.clone(),
    };
    confirm(&mut directory, &parameters).unwrap();
    assert_eq!(directory.subscriber_at(0).status, SubscriberStatus::Confirmed);
    let confirmed = directory.list_confirmed_subscribers();
    assert_eq!(confirmed, vec!["ursula_le_guin@gmail.com".to_string()]);
}

#[test]
fn newsletters_reach_only_confirmed_subscribers() {
    let mut directory = SubscriberDirectory::new();
    let mut idempotency = IdempotencyStore::new();
    let mut issues = IssueStore::new();
    let mut outbox = OutboxStore::new(3, 60);
    subscribe(&mut directory, &email_client(), &base_url(), guin_form()).unwrap();

    // The subscriber has not confirmed: an issue produces no task for them.
    let unconfirmed_run = PublishFormData {
        idempotency_key: "issue-1".to_string(),
        title: "Newsletter title".to_string(),
        text_content: "Newsletter body as plain text".to_string(),
        html_content: "<p>Newsletter body as HTML</p>".to_string(),
    };
    publish_newsletter(
        &mut idempotency,
        &mut issues,
        &mut outbox,
        7,
        &unconfirmed_run,
        &directory.list_confirmed_subscribers(),
        100,
    );
    assert_eq!(outbox.task_count(), 0);

    // Once they confirm, a subsequently published issue does produce one.
    let parameters = Parameters {
        subscription_token: directory.token_at(0).subscription_token.clone(),
    };
    confirm(&mut directory, &parameters).unwrap();
    let confirmed_run = PublishFormData {
        idempotency_key: "issue-2".to_string(),
        title: "Newsletter title".to_string(),
        text_content: "Newsletter body as plain text".to_string(),
        html_content: "<p>Newsletter body as HTML</p>".to_string(),
    };
    publish_newsletter(
        &mut idempotency,
        &mut issues,
        &mut outbox,
        7,
        &confirmed_run,
        &directory.list_confirmed_subscribers(),
        101,
    );
    assert_eq!(outbox.task_count(), 1);
    assert_eq!(outbox.task_at(0).recipient, "ursula_le_guin@gmail.com");
}

#[test]
fn subscription_tokens_are_25_alphanumeric_characters() {
    let token = generate_subscription_token();
    assert_eq!(token.len(), 25);
    assert!(token.chars().all(|c| c.is_ascii_alphanumeric()));
}

#[test]
fn try_from_validates_name_before_email() {
    let form = SubscriptionFormData {
        email: "not-an-email".to_string(),
        name: "".to_string(),
    };
    assert_eq!(
        NewSubscriber::try_from(form).unwrap_err(),
        "User name cannot be empty"
    );
}

#[test]
fn subscribe_error_status_codes() {
    assert_eq!(
        SubscribeError::ValidationError("x".to_string()).status_code(),
        400
    );
    assert_eq!(
        SubscribeError::UnexpectedError("x".to_string()).status_code(),
        500
    );
    assert_eq!(
        ConfirmSubscriptionError::Unauthorized("x".to_string()).status_code(),
        401
    );
    assert_eq!(
        ConfirmSubscriptionError::OtherError("x".to_string()).status_code(),
        500
    );
}
