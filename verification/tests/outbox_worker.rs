use zero2prod::outbox::{OutboxStore, TaskStatus};
use zero2prod::worker::{
    backoff_seconds, classify_status, classify_transport_error, resolve_delivery, DeliveryReport,
    FailureKind, TransportError,
};

fn outbox_with_one_task(max_attempts: u32) -> OutboxStore {
    let mut outbox = OutboxStore::new(max_attempts, 60);
    outbox.enqueue(1, &vec!["a@example.com".to_string()]);
    outbox
}

#[test]
fn claiming_from_an_empty_queue_yields_nothing() {
    let mut outbox = OutboxStore::new(3, 60);
    assert!(outbox.claim_next(0).is_none());
}

#[test]
fn a_claim_is_exclusive_while_the_lease_lasts() {
    let mut outbox = outbox_with_one_task(3);
    let (index, task) = outbox.claim_next(10).unwrap();
    assert_eq!(index, 0);
    assert_eq!(task.recipient, "a@example.com");
    assert_eq!(task.status, TaskStatus::InFlight);
    assert_eq!(task.claimed_at, Some(10));
    // A second worker sees nothing claimable while the lease holds.
    assert!(outbox.claim_next(69).is_none());
}

#[test]
fn an_expired_lease_makes_the_task_reclaimable() {
    let mut outbox = outbox_with_one_task(3);
    outbox.claim_next(10).unwrap();
    // The first worker crashed mid-send; after the lease expires the task
    // is claimable again.
    let (index, task) = outbox.claim_next(70).unwrap();
    assert_eq!(index, 0);
    assert_eq!(task.claimed_at, Some(70));
}

#[test]
fn a_retryable_failure_reschedules_until_the_ceiling() {
    let mut outbox = outbox_with_one_task(2);

    let (index, _) = outbox.claim_next(0).unwrap();
    resolve_delivery(&mut outbox, index, &DeliveryReport::TransportFailed(TransportError::Timeout));
    let task = outbox.task_at(0);
    assert_eq!(task.status, TaskStatus::Pending);
    assert_eq!(task.attempts, 1);

    let (index, _) = outbox.claim_next(1).unwrap();
    resolve_delivery(&mut outbox, index, &DeliveryReport::TransportFailed(TransportError::Timeout));
    let task = outbox.task_at(0);
    assert_eq!(task.status, TaskStatus::Failed);
    assert_eq!(task.attempts, 2);

    // The failed task is retained for the operator, never claimed again.
    assert_eq!(outbox.task_count(), 1);
    assert!(outbox.claim_next(1000).is_none());
}

#[test]
fn a_permanent_failure_parks_the_task_as_failed() {
    let mut outbox = outbox_with_one_task(3);
    let (index, _) = outbox.claim_next(0).unwrap();
    resolve_delivery(
        &mut outbox,
        index,
        &DeliveryReport::TransportFailed(TransportError::Status(404)),
    );
    let task = outbox.task_at(0);
    assert_eq!(task.status, TaskStatus::Failed);
    assert_eq!(task.attempts, 1);
    assert_eq!(outbox.task_count(), 1);
    assert!(outbox.claim_next(1000).is_none());
}

#[test]
fn a_transient_failure_then_success_delivers_exactly_once() {
    let mut outbox = OutboxStore::new(3, 60);
    outbox.enqueue(1, &vec!["a@example.com".to_string(), "b@example.com".to_string()]);

    let mut successful_sends: Vec<String> = Vec::new();
    let mut attempts: u32 = 0;

    // First attempt at the first task fails with a retryable error.
    let (index, task) = outbox.claim_next(0).unwrap();
    assert_eq!(task.recipient, "a@example.com");
    attempts += 1;
    resolve_delivery(&mut outbox, index, &DeliveryReport::TransportFailed(TransportError::Timeout));
    assert_eq!(outbox.task_count(), 2);

    // The worker keeps draining; every later attempt succeeds.
    let mut now: u64 = 1;
    while let Some((index, task)) = outbox.claim_next(now) {
        attempts += 1;
        successful_sends.push(task.recipient.clone());
        resolve_delivery(&mut outbox, index, &DeliveryReport::Delivered);
        now += 1;
    }

    assert_eq!(outbox.task_count(), 0);
    assert_eq!(successful_sends, vec!["a@example.com".to_string(), "b@example.com".to_string()]);
    assert_eq!(
        successful_sends.iter().filter(|r| r.as_str() == "a@example.com").count(),
        1
    );
    assert_eq!(attempts, 3);
}

#[test]
fn failure_classification_by_status_and_kind() {
    assert_eq!(classify_status(500), FailureKind::Retryable);
    assert_eq!(classify_status(503), FailureKind::Retryable);
    assert_eq!(classify_status(429), FailureKind::Retryable);
    assert_eq!(classify_status(404), FailureKind::Permanent);
    assert_eq!(classify_status(400), FailureKind::Permanent);
    assert_eq!(
        classify_transport_error(&TransportError::Timeout),
        FailureKind::Retryable
    );
    assert_eq!(
        classify_transport_error(&TransportError::Connection),
        FailureKind::Retryable
    );
    assert_eq!(
        classify_transport_error(&TransportError::Status(418)),
        FailureKind::Permanent
    );
}

#[test]
fn the_retry_backoff_grows_and_is_capped() {
    assert_eq!(backoff_seconds(0), 1);
    assert_eq!(backoff_seconds(1), 2);
    assert_eq!(backoff_seconds(3), 8);
    assert_eq!(backoff_seconds(5), 32);
    assert_eq!(backoff_seconds(6), 64);
    assert_eq!(backoff_seconds(100), 64);
}

#[test]
fn tasks_are_claimed_in_queue_order() {
    let mut outbox = OutboxStore::new(3, 60);
    outbox.enqueue(1, &vec!["a@example.com".to_string(), "b@example.com".to_string()]);
    let (_, first) = outbox.claim_next(0).unwrap();
    let (_, second) = outbox.claim_next(0).unwrap();
    assert_eq!(first.recipient, "a@example.com");
    assert_eq!(second.recipient, "b@example.com");
}
