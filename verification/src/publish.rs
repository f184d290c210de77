//! Publish command handler: validates a publish request, enforces
//! idempotency, and — in one atomic unit — records the issue, enqueues one
//! delivery task per confirmed subscriber, and caches the response under
//! the (publisher, idempotency key) pair. The caller is told "accepted";
//! delivery happens out of band.

use vstd::prelude::*;
use crate::idempotency::{
    find_state, BeginOutcome, IdempotencyStore, RecordStateView, RecordView,
};
use crate::idempotency;
use crate::issues::{Issue, IssueStore, IssueView};
use crate::outbox::{pending_tasks, OutboxStore, TaskView};
use crate::routes::{Response, ResponseView, STATUS_BAD_REQUEST, STATUS_OK};

verus! {

/// The fields of a publish request, as an authenticated caller submits
/// them.
pub struct PublishFormData {
    pub idempotency_key: String,
    pub title: String,
    pub text_content: String,
    pub html_content: String,
}

/// The mathematical value of a [`PublishFormData`].
#[verifier::ext_equal]
pub struct PublishFormView {
    pub idempotency_key: Seq<char>,
    pub title: Seq<char>,
    pub text_content: Seq<char>,
    pub html_content: Seq<char>,
}

impl View for PublishFormData {
    type V = PublishFormView;

    open spec fn view(&self) -> PublishFormView {
        PublishFormView {
            idempotency_key: self.idempotency_key@,
            title: self.title@,
            text_content: self.text_content@,
            html_content: self.html_content@,
        }
    }
}

/// What the handler hands back.
pub enum PublishOutcome {
    /// The request was resolved: the acknowledgment, the replayed cached
    /// response, or the validation error.
    Done(Response),
    /// Another submission currently executes the same key. The caller must
    /// wait (bounded) and submit again; it must never run the work itself.
    Busy,
}

/// The mathematical value of a [`PublishOutcome`].
pub enum PublishOutcomeView {
    Done(ResponseView),
    Busy,
}

impl View for PublishOutcome {
    type V = PublishOutcomeView;

    open spec fn view(&self) -> PublishOutcomeView {
        match self {
            PublishOutcome::Done(r) => PublishOutcomeView::Done(r@),
            PublishOutcome::Busy => PublishOutcomeView::Busy,
        }
    }
}

/// Whether the issue fields pass validation: a title and both body
/// renderings must be non-empty.
pub open spec fn valid_issue(title: Seq<char>, text: Seq<char>, html: Seq<char>) -> bool {
    title.len() > 0 && text.len() > 0 && html.len() > 0
}

/// The body of the validation-error response, naming the first field that
/// failed.
pub open spec fn validation_message(title: Seq<char>, text: Seq<char>, html: Seq<char>) -> Seq<char> {
    if title.len() == 0 {
        "The issue title must not be empty."@
    } else if text.len() == 0 {
        "The issue text content must not be empty."@
    } else {
        "The issue html content must not be empty."@
    }
}

/// The body of the acknowledgment response.
pub open spec fn accepted_message() -> Seq<char> {
    "The newsletter issue has been accepted - emails will go out shortly."@
}

/// The three stores and the outcome after one publish submission.
#[verifier::ext_equal]
pub struct PublishTransition {
    pub records: Seq<RecordView>,
    pub issues: Seq<IssueView>,
    pub tasks: Seq<TaskView>,
    pub outcome: PublishOutcomeView,
}

/// What one publish submission decides and how it changes the stores.
///
/// A key whose work is already cached replays the cached response verbatim
/// and changes nothing. A key currently in progress yields `Busy` and
/// changes nothing. A fresh key with invalid fields caches and returns the
/// validation error, creating no issue and no tasks. A fresh key with valid
/// fields records the issue, enqueues one pending task per subscriber, and
/// caches and returns the acknowledgment — all in one atomic unit.
pub open spec fn publish_spec(
    records: Seq<RecordView>,
    issues: Seq<IssueView>,
    tasks: Seq<TaskView>,
    publisher_id: u128,
    form: PublishFormView,
    subscribers: Seq<Seq<char>>,
    issue_id: u128,
) -> PublishTransition {
    let key = form.idempotency_key;
    match find_state(records, publisher_id, key) {
        Some(RecordStateView::Completed { status_code, response_body }) => PublishTransition {
            records,
            issues,
            tasks,
            outcome: PublishOutcomeView::Done(
                ResponseView { status: status_code, body: response_body },
            ),
        },
        Some(RecordStateView::InProgress) => PublishTransition {
            records,
            issues,
            tasks,
            outcome: PublishOutcomeView::Busy,
        },
        None => if !valid_issue(form.title, form.text_content, form.html_content) {
            let body = validation_message(form.title, form.text_content, form.html_content);
            PublishTransition {
                records: records.push(
                    RecordView {
                        publisher_id,
                        idempotency_key: key,
                        state: RecordStateView::Completed {
                            status_code: STATUS_BAD_REQUEST,
                            response_body: body,
                        },
                    },
                ),
                issues,
                tasks,
                outcome: PublishOutcomeView::Done(
                    ResponseView { status: STATUS_BAD_REQUEST, body },
                ),
            }
        } else {
            PublishTransition {
                records: records.push(
                    RecordView {
                        publisher_id,
                        idempotency_key: key,
                        state: RecordStateView::Completed {
                            status_code: STATUS_OK,
                            response_body: accepted_message(),
                        },
                    },
                ),
                issues: issues.push(
                    IssueView {
                        id: issue_id,
                        title: form.title,
                        text_body: form.text_content,
                        html_body: form.html_content,
                    },
                ),
                tasks: tasks + pending_tasks(issue_id, subscribers),
                outcome: PublishOutcomeView::Done(
                    ResponseView { status: STATUS_OK, body: accepted_message() },
                ),
            }
        },
    }
}

/// Handles one publish submission against the three durable stores.
///
/// `publisher_id` is the authenticated publisher identity, `subscribers`
/// the confirmed-subscriber addresses read from the subscriber directory at
/// this moment, and `issue_id` a freshly drawn identifier for the issue the
/// submission may create (see [`crate::subscribers::fresh_id`]).
pub fn publish_newsletter(
    idempotency: &mut IdempotencyStore,
    issues: &mut IssueStore,
    outbox: &mut OutboxStore,
    publisher_id: u128,
    form: &PublishFormData,
    subscribers: &Vec<String>,
    issue_id: u128,
) -> (r: PublishOutcome)
    ensures
        ({
            let t = publish_spec(
                old(idempotency)@,
                old(issues)@,
                old(outbox)@.tasks,
                publisher_id,
                form@,
                subscribers@.map_values(|s: String| s@),
                issue_id,
            );
            &&& final(idempotency)@ == t.records
            &&& final(issues)@ == t.issues
            &&& final(outbox)@.tasks == t.tasks
            &&& final(outbox)@.max_attempts == old(outbox)@.max_attempts
            &&& final(outbox)@.lease_seconds == old(outbox)@.lease_seconds
            &&& r@ == t.outcome
        }),
{
    let ghost key = form.idempotency_key@;
    match idempotency.begin(publisher_id, &form.idempotency_key) {
        BeginOutcome::AlreadyCompleted(response) => PublishOutcome::Done(response),
        BeginOutcome::AlreadyInProgress => PublishOutcome::Busy,
        BeginOutcome::Started => {
            proof {
                let rec = RecordView {
                    publisher_id,
                    idempotency_key: key,
                    state: RecordStateView::InProgress,
                };
                idempotency::lemma_find_push(old(idempotency)@, rec, publisher_id, key);
                assert(find_state(idempotency@, publisher_id, key) == Some(
                    RecordStateView::InProgress,
                ));
            }
            let invalid_title = form.title.as_str().is_empty();
            let invalid_text = form.text_content.as_str().is_empty();
            let invalid_html = form.html_content.as_str().is_empty();
            if invalid_title || invalid_text || invalid_html {
                let body: String = if invalid_title {
                    "The issue title must not be empty.".to_owned()
                } else if invalid_text {
                    "The issue text content must not be empty.".to_owned()
                } else {
                    "The issue html content must not be empty.".to_owned()
                };
                let response = Response { status: STATUS_BAD_REQUEST, body };
                idempotency.complete(publisher_id, &form.idempotency_key, &response);
                proof {
                    let t = publish_spec(
                        old(idempotency)@,
                        old(issues)@,
                        old(outbox)@.tasks,
                        publisher_id,
                        form@,
                        subscribers@.map_values(|s: String| s@),
                        issue_id,
                    );
                    assert(final(idempotency)@ =~= t.records);
                }
                PublishOutcome::Done(response)
            } else {
                let issue = Issue {
                    id: issue_id,
                    title: form.title.clone(),
                    text_body: form.text_content.clone(),
                    html_body: form.html_content.clone(),
                };
                issues.insert(issue);
                outbox.enqueue(issue_id, subscribers);
                let response = Response {
                    status: STATUS_OK,
                    body: "The newsletter issue has been accepted - emails will go out shortly."
                        .to_owned(),
                };
                idempotency.complete(publisher_id, &form.idempotency_key, &response);
                proof {
                    let t = publish_spec(
                        old(idempotency)@,
                        old(issues)@,
                        old(outbox)@.tasks,
                        publisher_id,
                        form@,
                        subscribers@.map_values(|s: String| s@),
                        issue_id,
                    );
                    assert(final(idempotency)@ =~= t.records);
                    assert(final(issues)@ == t.issues);
                }
                PublishOutcome::Done(response)
            }
        },
    }
}

/// Law (idempotence): as long as no submission of the key is still in
/// flight, submitting the same (publisher, idempotency key) a second time —
/// with the same or any other issue identifier — yields the identical
/// response and leaves all three stores exactly as the first submission
/// left them: one issue and one task set at most, however often the client
/// retries.
pub proof fn lemma_publish_idempotent(
    records: Seq<RecordView>,
    issues: Seq<IssueView>,
    tasks: Seq<TaskView>,
    publisher_id: u128,
    form: PublishFormView,
    subscribers: Seq<Seq<char>>,
    first_issue_id: u128,
    second_issue_id: u128,
)
    requires
        !(find_state(records, publisher_id, form.idempotency_key) matches Some(
            RecordStateView::InProgress,
        )),
    ensures
        ({
            let t1 = publish_spec(
                records,
                issues,
                tasks,
                publisher_id,
                form,
                subscribers,
                first_issue_id,
            );
            let t2 = publish_spec(
                t1.records,
                t1.issues,
                t1.tasks,
                publisher_id,
                form,
                subscribers,
                second_issue_id,
            );
            t2 =~= t1
        }),
{
    let key = form.idempotency_key;
    let t1 = publish_spec(records, issues, tasks, publisher_id, form, subscribers, first_issue_id);
    match find_state(records, publisher_id, key) {
        Some(RecordStateView::Completed { status_code, response_body }) => {
            assert(t1.records == records);
        },
        Some(RecordStateView::InProgress) => {
            assert(false);
        },
        None => {
            let completed_state = if !valid_issue(form.title, form.text_content, form.html_content) {
                RecordStateView::Completed {
                    status_code: STATUS_BAD_REQUEST,
                    response_body: validation_message(form.title, form.text_content, form.html_content),
                }
            } else {
                RecordStateView::Completed {
                    status_code: STATUS_OK,
                    response_body: accepted_message(),
                }
            };
            let rec = RecordView { publisher_id, idempotency_key: key, state: completed_state };
            assert(t1.records == records.push(rec));
            idempotency::lemma_find_push(records, rec, publisher_id, key);
            assert(find_state(t1.records, publisher_id, key) == Some(completed_state));
        },
    }
}

/// Law (concurrent duplicate safety at the handler): while another
/// submission holds the key in progress, a duplicate submission reports
/// `Busy` and creates nothing — no second issue, no second task set. With
/// [`crate::idempotency::lemma_begin_exclusive`] and
/// [`crate::idempotency::lemma_complete_then_begin`], two simultaneous
/// submissions of one key thus perform the work at most once and end up
/// observing the identical stored response.
pub proof fn lemma_in_progress_submission_creates_nothing(
    records: Seq<RecordView>,
    issues: Seq<IssueView>,
    tasks: Seq<TaskView>,
    publisher_id: u128,
    form: PublishFormView,
    subscribers: Seq<Seq<char>>,
    issue_id: u128,
)
    requires
        find_state(records, publisher_id, form.idempotency_key) == Some(
            RecordStateView::InProgress,
        ),
    ensures
        ({
            let t = publish_spec(records, issues, tasks, publisher_id, form, subscribers, issue_id);
            t.records == records && t.issues == issues && t.tasks == tasks && t.outcome is Busy
        }),
{
}

/// Law (validation boundary): a fresh publish request with an empty title
/// or empty content is rejected before any issue or delivery task is
/// created, and the rejection itself is cached under the idempotency key,
/// so a retry of the invalid request replays the same validation error.
pub proof fn lemma_validation_boundary(
    records: Seq<RecordView>,
    issues: Seq<IssueView>,
    tasks: Seq<TaskView>,
    publisher_id: u128,
    form: PublishFormView,
    subscribers: Seq<Seq<char>>,
    issue_id: u128,
)
    requires
        find_state(records, publisher_id, form.idempotency_key) is None,
        !valid_issue(form.title, form.text_content, form.html_content),
    ensures
        ({
            let t = publish_spec(records, issues, tasks, publisher_id, form, subscribers, issue_id);
            let body = validation_message(form.title, form.text_content, form.html_content);
            &&& t.issues == issues
            &&& t.tasks == tasks
            &&& t.outcome == PublishOutcomeView::Done(
                ResponseView { status: STATUS_BAD_REQUEST, body },
            )
            &&& find_state(t.records, publisher_id, form.idempotency_key) == Some(
                RecordStateView::Completed {
                    status_code: STATUS_BAD_REQUEST,
                    response_body: body,
                },
            )
        }),
{
    let key = form.idempotency_key;
    let body = validation_message(form.title, form.text_content, form.html_content);
    let rec = RecordView {
        publisher_id,
        idempotency_key: key,
        state: RecordStateView::Completed { status_code: STATUS_BAD_REQUEST, response_body: body },
    };
    idempotency::lemma_find_push(records, rec, publisher_id, key);
}

/// Law (confirmed-only delivery, negative half): whatever the submission
/// decides, every delivery task it creates is addressed to one of the
/// confirmed subscribers it was given. An address outside that set — in
/// particular a subscriber who has not confirmed — never gets a task.
pub proof fn lemma_no_task_for_unlisted(
    records: Seq<RecordView>,
    issues: Seq<IssueView>,
    tasks: Seq<TaskView>,
    publisher_id: u128,
    form: PublishFormView,
    subscribers: Seq<Seq<char>>,
    issue_id: u128,
    address: Seq<char>,
)
    requires
        !subscribers.contains(address),
    ensures
        ({
            let t = publish_spec(records, issues, tasks, publisher_id, form, subscribers, issue_id);
            forall|j: int|
                tasks.len() <= j < t.tasks.len() ==> t.tasks[j].recipient != address
        }),
{
    let t = publish_spec(records, issues, tasks, publisher_id, form, subscribers, issue_id);
    assert forall|j: int|
        tasks.len() <= j < t.tasks.len() implies t.tasks[j].recipient != address by {
        if t.tasks.len() > tasks.len() {
            let k = j - tasks.len();
            assert(t.tasks[j] == pending_tasks(issue_id, subscribers)[k]);
            assert(t.tasks[j].recipient == subscribers[k]);
        }
    }
}

/// Law (confirmed-only delivery, positive half): a fresh, valid submission
/// creates a pending delivery task of the new issue for every confirmed
/// subscriber it was given — so once a subscriber has confirmed, a
/// subsequently published issue does produce a task for them.
pub proof fn lemma_task_for_listed(
    records: Seq<RecordView>,
    issues: Seq<IssueView>,
    tasks: Seq<TaskView>,
    publisher_id: u128,
    form: PublishFormView,
    subscribers: Seq<Seq<char>>,
    issue_id: u128,
    address: Seq<char>,
)
    requires
        subscribers.contains(address),
        find_state(records, publisher_id, form.idempotency_key) is None,
        valid_issue(form.title, form.text_content, form.html_content),
    ensures
        ({
            let t = publish_spec(records, issues, tasks, publisher_id, form, subscribers, issue_id);
            exists|j: int|
                tasks.len() <= j < t.tasks.len() && t.tasks[j].recipient == address
                    && t.tasks[j].issue_id == issue_id && t.tasks[j].status is Pending
        }),
{
    let t = publish_spec(records, issues, tasks, publisher_id, form, subscribers, issue_id);
    let k = choose|k: int| 0 <= k < subscribers.len() && subscribers[k] == address;
    let j = tasks.len() + k;
    assert(t.tasks[j] == pending_tasks(issue_id, subscribers)[k]);
    assert(tasks.len() <= j < t.tasks.len() && t.tasks[j].recipient == address
        && t.tasks[j].issue_id == issue_id && t.tasks[j].status is Pending);
}

} // verus!
