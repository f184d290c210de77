//! Delivery worker decision logic. A worker loop claims a pending task
//! from the outbox, invokes the external single-email-send operation, and
//! resolves the task from the outcome: delete on success, reschedule with a
//! bounded retry budget on a retryable failure, park as `Failed` on a
//! permanent one. The send itself is I/O and lives outside this crate; the
//! classification and resolution decisions are here.

use vstd::prelude::*;
use crate::outbox::{
    claimed_task, failed_task, first_eligible, lemma_first_eligible_from_properties, retried_task,
    OutboxStore, TaskView,
};

verus! {

/// Why the email transport failed, with enough information to classify the
/// failure: the error status the provider returned, or the kind of
/// transport-level fault.
#[derive(Clone, Copy, PartialEq, Eq, Structural, Debug)]
pub enum TransportError {
    /// The provider answered with an error status (at least 400).
    Status(u16),
    /// The request timed out before an answer arrived.
    Timeout,
    /// The connection failed before an answer arrived.
    Connection,
}

/// How a delivery failure is to be handled.
#[derive(Clone, Copy, PartialEq, Eq, Structural, Debug)]
pub enum FailureKind {
    /// Worth another attempt: the task goes back to the queue.
    Retryable,
    /// Not worth another attempt: the task is parked as `Failed`.
    Permanent,
}

/// What one send attempt came to: the report the worker hands back to the
/// resolution step.
#[derive(Clone, Copy, PartialEq, Eq, Structural, Debug)]
pub enum DeliveryReport {
    /// The provider accepted the email.
    Delivered,
    /// The send failed with the given transport error.
    TransportFailed(TransportError),
}

/// Classification of an error status: server-side failures and
/// rate-limiting are retryable, every other client-side failure is
/// permanent.
pub open spec fn spec_classify_status(status: u16) -> FailureKind {
    if status >= 500 || status == 429 {
        FailureKind::Retryable
    } else {
        FailureKind::Permanent
    }
}

/// Classification of a transport error: timeouts and connection faults are
/// retryable; an error status is classified by its class.
pub open spec fn spec_classify(error: TransportError) -> FailureKind {
    match error {
        TransportError::Status(status) => spec_classify_status(status),
        TransportError::Timeout => FailureKind::Retryable,
        TransportError::Connection => FailureKind::Retryable,
    }
}

/// Classifies an error status the provider returned.
pub fn classify_status(status: u16) -> (r: FailureKind)
    requires
        status >= 400,
    ensures
        r == spec_classify_status(status),
{
    if status >= 500 || status == 429 {
        FailureKind::Retryable
    } else {
        FailureKind::Permanent
    }
}

/// Classifies a transport error.
pub fn classify_transport_error(error: &TransportError) -> (r: FailureKind)
    requires
        error matches TransportError::Status(status) ==> status >= 400,
    ensures
        r == spec_classify(*error),
{
    match error {
        TransportError::Status(status) => classify_status(*status),
        TransportError::Timeout => FailureKind::Retryable,
        TransportError::Connection => FailureKind::Retryable,
    }
}

/// The outbox tasks after a claimed task at `index` is resolved from the
/// given report.
pub open spec fn resolve_spec(
    tasks: Seq<TaskView>,
    index: int,
    report: DeliveryReport,
    max_attempts: u32,
) -> Seq<TaskView> {
    match report {
        DeliveryReport::Delivered => tasks.remove(index),
        DeliveryReport::TransportFailed(error) => match spec_classify(error) {
            FailureKind::Retryable => tasks.update(index, retried_task(tasks[index], max_attempts)),
            FailureKind::Permanent => tasks.update(index, failed_task(tasks[index])),
        },
    }
}

/// Resolves the claimed task at `index` from the report of its send
/// attempt: deleted on success, rescheduled within the retry budget on a
/// retryable failure, parked as `Failed` on a permanent one.
pub fn resolve_delivery(
    outbox: &mut OutboxStore,
    index: usize,
    report: &DeliveryReport,
)
    requires
        index < old(outbox)@.tasks.len(),
        old(outbox)@.tasks[index as int].status is InFlight,
        old(outbox)@.tasks[index as int].attempts < u32::MAX,
        report matches DeliveryReport::TransportFailed(TransportError::Status(status))
            ==> status >= 400,
    ensures
        final(outbox)@.tasks == resolve_spec(
            old(outbox)@.tasks,
            index as int,
            *report,
            old(outbox)@.max_attempts,
        ),
        final(outbox)@.max_attempts == old(outbox)@.max_attempts,
        final(outbox)@.lease_seconds == old(outbox)@.lease_seconds,
{
    match report {
        DeliveryReport::Delivered => outbox.resolve_success(index),
        DeliveryReport::TransportFailed(error) => match classify_transport_error(error) {
            FailureKind::Retryable => outbox.resolve_retry(index),
            FailureKind::Permanent => outbox.resolve_permanent(index),
        },
    }
}

/// The pause before the next attempt of a task that has failed the given
/// number of times: it doubles with every failure and is capped, so a
/// persistently failing recipient is not hot-looped.
pub open spec fn spec_backoff_seconds(attempts: u32) -> u64 {
    if attempts == 0 {
        1
    } else if attempts == 1 {
        2
    } else if attempts == 2 {
        4
    } else if attempts == 3 {
        8
    } else if attempts == 4 {
        16
    } else if attempts == 5 {
        32
    } else {
        64
    }
}

/// How long the worker should wait before retrying a task that has already
/// failed `attempts` times.
pub fn backoff_seconds(attempts: u32) -> (r: u64)
    ensures
        r == spec_backoff_seconds(attempts),
{
    if attempts == 0 {
        1
    } else if attempts == 1 {
        2
    } else if attempts == 2 {
        4
    } else if attempts == 3 {
        8
    } else if attempts == 4 {
        16
    } else if attempts == 5 {
        32
    } else {
        64
    }
}

/// Law (at-least-once under transient failure): when the first claimable
/// task fails with a retryable error while its retry budget lasts, the
/// failed attempt neither loses nor duplicates the obligation — the task is
/// back in the queue, pending, with one more attempt counted, and every
/// other task untouched. And when a later claim picks it up again and the
/// send succeeds, the obligation is resolved exactly once: that one task is
/// deleted and the rest of the queue is exactly what it was before the
/// first attempt.
pub proof fn lemma_transient_failure_then_success(
    tasks: Seq<TaskView>,
    max_attempts: u32,
    lease_seconds: u64,
    first_now: u64,
    second_now: u64,
)
    requires
        first_eligible(tasks, first_now, lease_seconds) matches Some(i) && tasks[i].attempts + 1
            < max_attempts,
    ensures
        ({
            let i = first_eligible(tasks, first_now, lease_seconds).unwrap();
            let after_claim = tasks.update(i, claimed_task(tasks[i], first_now));
            let after_retry = resolve_spec(
                after_claim,
                i,
                DeliveryReport::TransportFailed(TransportError::Timeout),
                max_attempts,
            );
            &&& after_retry.len() == tasks.len()
            &&& after_retry[i].recipient == tasks[i].recipient
            &&& after_retry[i].issue_id == tasks[i].issue_id
            &&& after_retry[i].status is Pending
            &&& after_retry[i].attempts == tasks[i].attempts + 1
            &&& (forall|j: int| 0 <= j < tasks.len() && j != i ==> after_retry[j] == tasks[j])
            &&& (first_eligible(after_retry, second_now, lease_seconds) == Some(i) ==> ({
                let after_second_claim = after_retry.update(
                    i,
                    claimed_task(after_retry[i], second_now),
                );
                let after_success = resolve_spec(
                    after_second_claim,
                    i,
                    DeliveryReport::Delivered,
                    max_attempts,
                );
                after_success =~= tasks.remove(i)
            }))
        }),
{
    lemma_first_eligible_from_properties(tasks, first_now, lease_seconds, 0);
    let i = first_eligible(tasks, first_now, lease_seconds).unwrap();
    assert(0 <= i < tasks.len());
    let after_claim = tasks.update(i, claimed_task(tasks[i], first_now));
    let after_retry = resolve_spec(
        after_claim,
        i,
        DeliveryReport::TransportFailed(TransportError::Timeout),
        max_attempts,
    );
    assert(after_retry == after_claim.update(i, retried_task(after_claim[i], max_attempts)));
    if first_eligible(after_retry, second_now, lease_seconds) == Some(i) {
        let after_second_claim = after_retry.update(i, claimed_task(after_retry[i], second_now));
        let after_success = resolve_spec(
            after_second_claim,
            i,
            DeliveryReport::Delivered,
            max_attempts,
        );
        assert(after_success =~= tasks.remove(i));
    }
}

} // verus!
