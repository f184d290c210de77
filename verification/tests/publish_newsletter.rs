use zero2prod::idempotency::{BeginOutcome, IdempotencyStore};
use zero2prod::issues::IssueStore;
use zero2prod::outbox::OutboxStore;
use zero2prod::publish::{publish_newsletter, PublishFormData, PublishOutcome};
use zero2prod::routes::Response;
use zero2prod::worker::{resolve_delivery, DeliveryReport};

const ACCEPTED: &str = "The newsletter issue has been accepted - emails will go out shortly.";

fn form(key: &str) -> PublishFormData {
    PublishFormData {
        idempotency_key: key.to_string(),
        title: "Hi".to_string(),
        text_content: "t".to_string(),
        html_content: "<p>t</p>".to_string(),
    }
}

fn response_of(outcome: PublishOutcome) -> Response {
    match outcome {
        PublishOutcome::Done(response) => response,
        PublishOutcome::Busy => panic!("the publish submission reported busy"),
    }
}

#[test]
fn worked_example_publish_then_drain() {
    let mut idempotency = IdempotencyStore::new();
    let mut issues = IssueStore::new();
    let mut outbox = OutboxStore::new(3, 60);
    let subscribers = vec!["a@example.com".to_string(), "b@example.com".to_string()];

    let response = response_of(publish_newsletter(
        &mut idempotency,
        &mut issues,
        &mut outbox,
        7,
        &form("k1"),
        &subscribers,
        100,
    ));
    assert_eq!(response.status, 200);
    assert_eq!(response.body, ACCEPTED);
    assert_eq!(issues.issue_count(), 1);
    assert_eq!(outbox.task_count(), 2);

    // Drain the queue, recording each transport invocation.
    let mut sent: Vec<(String, String, String, String)> = Vec::new();
    let mut now: u64 = 0;
    while let Some((index, task)) = outbox.claim_next(now) {
        let issue = issues.get(task.issue_id).unwrap();
        sent.push((
            task.recipient.clone(),
            issue.title.clone(),
            issue.html_body.clone(),
            issue.text_body.clone(),
        ));
        resolve_delivery(&mut outbox, index, &DeliveryReport::Delivered);
        now += 1;
    }
    assert_eq!(outbox.task_count(), 0);
    assert_eq!(sent.len(), 2);
    assert_eq!(
        sent[0],
        (
            "a@example.com".to_string(),
            "Hi".to_string(),
            "<p>t</p>".to_string(),
            "t".to_string()
        )
    );
    assert_eq!(
        sent[1],
        (
            "b@example.com".to_string(),
            "Hi".to_string(),
            "<p>t</p>".to_string(),
            "t".to_string()
        )
    );
}

#[test]
fn repeated_submission_replays_the_response_and_creates_nothing() {
    let mut idempotency = IdempotencyStore::new();
    let mut issues = IssueStore::new();
    let mut outbox = OutboxStore::new(3, 60);
    let subscribers = vec!["a@example.com".to_string()];

    let first = response_of(publish_newsletter(
        &mut idempotency,
        &mut issues,
        &mut outbox,
        7,
        &form("k1"),
        &subscribers,
        100,
    ));
    let second = response_of(publish_newsletter(
        &mut idempotency,
        &mut issues,
        &mut outbox,
        7,
        &form("k1"),
        &subscribers,
        101,
    ));
    assert_eq!(first.status, second.status);
    assert_eq!(first.body, second.body);
    assert_eq!(issues.issue_count(), 1);
    assert_eq!(outbox.task_count(), 1);
}

#[test]
fn an_empty_title_is_rejected_and_the_rejection_is_cached() {
    let mut idempotency = IdempotencyStore::new();
    let mut issues = IssueStore::new();
    let mut outbox = OutboxStore::new(3, 60);
    let subscribers = vec!["a@example.com".to_string()];

    let mut invalid = form("k1");
    invalid.title = String::new();
    let response = response_of(publish_newsletter(
        &mut idempotency,
        &mut issues,
        &mut outbox,
        7,
        &invalid,
        &subscribers,
        100,
    ));
    assert_eq!(response.status, 400);
    assert_eq!(response.body, "The issue title must not be empty.");
    assert_eq!(issues.issue_count(), 0);
    assert_eq!(outbox.task_count(), 0);

    // A retry of the key replays the cached rejection even with the
    // fields corrected: the key identifies the command instance.
    let retry = response_of(publish_newsletter(
        &mut idempotency,
        &mut issues,
        &mut outbox,
        7,
        &form("k1"),
        &subscribers,
        101,
    ));
    assert_eq!(retry.status, 400);
    assert_eq!(retry.body, "The issue title must not be empty.");
    assert_eq!(issues.issue_count(), 0);
    assert_eq!(outbox.task_count(), 0);
}

#[test]
fn empty_content_is_rejected_before_any_task_is_created() {
    let mut idempotency = IdempotencyStore::new();
    let mut issues = IssueStore::new();
    let mut outbox = OutboxStore::new(3, 60);
    let subscribers = vec!["a@example.com".to_string()];

    let mut no_text = form("k-text");
    no_text.text_content = String::new();
    let response = response_of(publish_newsletter(
        &mut idempotency,
        &mut issues,
        &mut outbox,
        7,
        &no_text,
        &subscribers,
        100,
    ));
    assert_eq!(response.status, 400);
    assert_eq!(response.body, "The issue text content must not be empty.");

    let mut no_html = form("k-html");
    no_html.html_content = String::new();
    let response = response_of(publish_newsletter(
        &mut idempotency,
        &mut issues,
        &mut outbox,
        7,
        &no_html,
        &subscribers,
        101,
    ));
    assert_eq!(response.status, 400);
    assert_eq!(response.body, "The issue html content must not be empty.");

    assert_eq!(outbox.task_count(), 0);
}

#[test]
fn a_key_held_in_progress_reports_busy() {
    let mut idempotency = IdempotencyStore::new();
    let mut issues = IssueStore::new();
    let mut outbox = OutboxStore::new(3, 60);
    let subscribers = vec!["a@example.com".to_string()];

    let key = "k1".to_string();
    assert!(matches!(idempotency.begin(7, &key), BeginOutcome::Started));
    let outcome = publish_newsletter(
        &mut idempotency,
        &mut issues,
        &mut outbox,
        7,
        &form("k1"),
        &subscribers,
        100,
    );
    assert!(matches!(outcome, PublishOutcome::Busy));
    assert_eq!(issues.issue_count(), 0);
    assert_eq!(outbox.task_count(), 0);
}

#[test]
fn concurrent_duplicates_have_one_winner_and_identical_responses() {
    // The interleaving of two simultaneous submissions of the same key,
    // played out against the store: the winner's insert grants `Started`,
    // the loser observes `AlreadyInProgress` and waits, and after the
    // winner completes, the loser replays the identical response.
    let mut idempotency = IdempotencyStore::new();
    let key = "k1".to_string();

    assert!(matches!(idempotency.begin(7, &key), BeginOutcome::Started));
    assert!(matches!(
        idempotency.begin(7, &key),
        BeginOutcome::AlreadyInProgress
    ));

    let winner_response = Response {
        status: 200,
        body: ACCEPTED.to_string(),
    };
    idempotency.complete(7, &key, &winner_response);

    match idempotency.begin(7, &key) {
        BeginOutcome::AlreadyCompleted(replayed) => {
            assert_eq!(replayed.status, winner_response.status);
            assert_eq!(replayed.body, winner_response.body);
        }
        _ => panic!("the loser did not observe the completed response"),
    }
}

#[test]
fn different_keys_are_independent_commands() {
    let mut idempotency = IdempotencyStore::new();
    let mut issues = IssueStore::new();
    let mut outbox = OutboxStore::new(3, 60);
    let subscribers = vec!["a@example.com".to_string()];

    response_of(publish_newsletter(
        &mut idempotency,
        &mut issues,
        &mut outbox,
        7,
        &form("k1"),
        &subscribers,
        100,
    ));
    response_of(publish_newsletter(
        &mut idempotency,
        &mut issues,
        &mut outbox,
        7,
        &form("k2"),
        &subscribers,
        101,
    ));
    assert_eq!(issues.issue_count(), 2);
    assert_eq!(outbox.task_count(), 2);
}

#[test]
fn an_aborted_in_progress_marker_frees_the_key() {
    let mut idempotency = IdempotencyStore::new();
    let key = "k1".to_string();
    assert!(matches!(idempotency.begin(7, &key), BeginOutcome::Started));
    idempotency.abort(7, &key);
    assert!(matches!(idempotency.begin(7, &key), BeginOutcome::Started));
}
