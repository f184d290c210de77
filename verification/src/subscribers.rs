//! Subscriber directory: the durable record of subscribers, their
//! confirmation status and their confirmation tokens. The publish command
//! handler reads the confirmed addresses from here at issue-creation time.

use vstd::prelude::*;
use crate::domain::new_subscriber::NewSubscriber;
use crate::publish;
use crate::publish::{publish_spec, valid_issue, PublishFormView};
use crate::idempotency::{find_state, RecordView};
use crate::issues::IssueView;
use crate::outbox::TaskView;

verus! {

/// Relies on uuid's `Uuid::new_v4`: a freshly drawn random identifier.
/// Nothing is promised of a random value.
#[verifier::external_body]
pub fn fresh_id() -> u128 {
    uuid::Uuid::new_v4().as_u128()
}

/// Where a subscriber stands: signed up but not yet confirmed, or
/// confirmed by the double-opt-in link.
#[derive(Clone, Copy, PartialEq, Eq, Structural, Debug)]
pub enum SubscriberStatus {
    PendingConfirmation,
    Confirmed,
}

/// One subscriber row.
pub struct SubscriberRecord {
    pub id: u128,
    pub email: String,
    pub name: String,
    pub status: SubscriberStatus,
}

/// The mathematical value of a [`SubscriberRecord`].
#[verifier::ext_equal]
pub struct SubscriberRecordView {
    pub id: u128,
    pub email: Seq<char>,
    pub name: Seq<char>,
    pub status: SubscriberStatus,
}

impl View for SubscriberRecord {
    type V = SubscriberRecordView;

    open spec fn view(&self) -> SubscriberRecordView {
        SubscriberRecordView {
            id: self.id,
            email: self.email@,
            name: self.name@,
            status: self.status,
        }
    }
}

/// One confirmation-token row.
pub struct TokenRecord {
    pub subscription_token: String,
    pub subscriber_id: u128,
}

/// The mathematical value of a [`TokenRecord`].
#[verifier::ext_equal]
pub struct TokenRecordView {
    pub subscription_token: Seq<char>,
    pub subscriber_id: u128,
}

impl View for TokenRecord {
    type V = TokenRecordView;

    open spec fn view(&self) -> TokenRecordView {
        TokenRecordView {
            subscription_token: self.subscription_token@,
            subscriber_id: self.subscriber_id,
        }
    }
}

/// The mathematical value of a [`SubscriberDirectory`].
#[verifier::ext_equal]
pub struct DirectoryView {
    pub subscribers: Seq<SubscriberRecordView>,
    pub tokens: Seq<TokenRecordView>,
}

/// Index of the first subscriber with the given email, searching from `i`.
pub open spec fn find_email_from(s: Seq<SubscriberRecordView>, email: Seq<char>, i: int) -> Option<int>
    decreases s.len() - i,
{
    if i < 0 || i >= s.len() {
        None
    } else if s[i].email == email {
        Some(i)
    } else {
        find_email_from(s, email, i + 1)
    }
}

/// Index of the first subscriber with the given email, if any.
pub open spec fn find_email(s: Seq<SubscriberRecordView>, email: Seq<char>) -> Option<int> {
    find_email_from(s, email, 0)
}

/// Index of the first subscriber with the given id, searching from `i`.
pub open spec fn find_subscriber_from(s: Seq<SubscriberRecordView>, id: u128, i: int) -> Option<int>
    decreases s.len() - i,
{
    if i < 0 || i >= s.len() {
        None
    } else if s[i].id == id {
        Some(i)
    } else {
        find_subscriber_from(s, id, i + 1)
    }
}

/// Index of the first subscriber with the given id, if any.
pub open spec fn find_subscriber(s: Seq<SubscriberRecordView>, id: u128) -> Option<int> {
    find_subscriber_from(s, id, 0)
}

/// Index of the first token row holding the given token, searching from
/// `i`.
pub open spec fn find_token_from(s: Seq<TokenRecordView>, token: Seq<char>, i: int) -> Option<int>
    decreases s.len() - i,
{
    if i < 0 || i >= s.len() {
        None
    } else if s[i].subscription_token == token {
        Some(i)
    } else {
        find_token_from(s, token, i + 1)
    }
}

/// Index of the first token row holding the given token, if any.
pub open spec fn find_token(s: Seq<TokenRecordView>, token: Seq<char>) -> Option<int> {
    find_token_from(s, token, 0)
}

/// The emails of the confirmed subscribers, in directory order.
pub open spec fn confirmed_emails(s: Seq<SubscriberRecordView>) -> Seq<Seq<char>>
    decreases s.len(),
{
    if s.len() == 0 {
        Seq::empty()
    } else if s.last().status is Confirmed {
        confirmed_emails(s.drop_last()).push(s.last().email)
    } else {
        confirmed_emails(s.drop_last())
    }
}

/// An address is among the confirmed emails exactly when some directory
/// row holds it with status `Confirmed`.
pub proof fn lemma_confirmed_emails_contains(s: Seq<SubscriberRecordView>, address: Seq<char>)
    ensures
        confirmed_emails(s).contains(address) <==> exists|i: int|
            0 <= i < s.len() && s[i].status is Confirmed && s[i].email == address,
    decreases s.len(),
{
    if s.len() > 0 {
        lemma_confirmed_emails_contains(s.drop_last(), address);
        let prefix = confirmed_emails(s.drop_last());
        if s.last().status is Confirmed && s.last().email == address {
            assert(confirmed_emails(s)[prefix.len() as int] == address);
            assert(confirmed_emails(s).contains(address));
            assert(s[s.len() - 1].status is Confirmed && s[s.len() - 1].email == address);
        } else {
            if confirmed_emails(s).contains(address) {
                let k = choose|k: int|
                    0 <= k < confirmed_emails(s).len() && confirmed_emails(s)[k] == address;
                assert(prefix.contains(address)) by {
                    if s.last().status is Confirmed {
                        assert(k < prefix.len());
                    }
                    assert(prefix[k] == address);
                }
            }
            if exists|i: int| 0 <= i < s.len() && s[i].status is Confirmed && s[i].email == address {
                let i = choose|i: int|
                    0 <= i < s.len() && s[i].status is Confirmed && s[i].email == address;
                assert(i < s.len() - 1);
                assert(s.drop_last()[i].status is Confirmed && s.drop_last()[i].email == address);
                assert(prefix.contains(address));
                if s.last().status is Confirmed {
                    let k = choose|k: int| 0 <= k < prefix.len() && prefix[k] == address;
                    assert(confirmed_emails(s)[k] == address);
                }
            }
        }
    }
}

/// The durable subscriber directory.
pub struct SubscriberDirectory {
    subscribers: Vec<SubscriberRecord>,
    tokens: Vec<TokenRecord>,
}

impl View for SubscriberDirectory {
    type V = DirectoryView;

    closed spec fn view(&self) -> DirectoryView {
        DirectoryView {
            subscribers: self.subscribers@.map_values(|r: SubscriberRecord| r@),
            tokens: self.tokens@.map_values(|t: TokenRecord| t@),
        }
    }
}

impl SubscriberDirectory {
    /// An empty directory.
    pub fn new() -> (r: SubscriberDirectory)
        ensures
            r@.subscribers == Seq::<SubscriberRecordView>::empty(),
            r@.tokens == Seq::<TokenRecordView>::empty(),
    {
        let r = SubscriberDirectory { subscribers: Vec::new(), tokens: Vec::new() };
        proof {
            assert(r@.subscribers =~= Seq::<SubscriberRecordView>::empty());
            assert(r@.tokens =~= Seq::<TokenRecordView>::empty());
        }
        r
    }

    /// Stores a validated new subscriber as pending confirmation, under a
    /// freshly drawn id, which is returned. An address already present is
    /// refused — the directory keeps one row per email — and the directory
    /// is then unchanged.
    pub fn insert_subscriber(&mut self, new_subscriber: &NewSubscriber) -> (r: Result<u128, String>)
        ensures
            match find_email(old(self)@.subscribers, new_subscriber.email@) {
                Some(_) => r is Err && final(self)@ == old(self)@,
                None => r matches Ok(id) && final(self)@.subscribers == old(self)@.subscribers.push(
                    SubscriberRecordView {
                        id,
                        email: new_subscriber.email@,
                        name: new_subscriber.name@,
                        status: SubscriberStatus::PendingConfirmation,
                    },
                ) && final(self)@.tokens == old(self)@.tokens,
            },
    {
        let n = self.subscribers.len();
        let mut i: usize = 0;
        while i < n
            invariant
                n == self@.subscribers.len(),
                i <= n,
                find_email(self@.subscribers, new_subscriber.email@) == find_email_from(
                    self@.subscribers,
                    new_subscriber.email@,
                    i as int,
                ),
                self == old(self),
            decreases n - i,
        {
            if self.subscribers[i].email == *new_subscriber.email.as_string() {
                assert(self@.subscribers[i as int].email == new_subscriber.email@);
                return Err("A subscriber with this email already exists.".to_owned());
            }
            assert(self@.subscribers[i as int].email != new_subscriber.email@);
            i = i + 1;
        }
        let id = fresh_id();
        let record = SubscriberRecord {
            id,
            email: new_subscriber.email.as_ref().to_owned(),
            name: new_subscriber.name.as_ref().to_owned(),
            status: SubscriberStatus::PendingConfirmation,
        };
        let ghost rv = record@;
        self.subscribers.push(record);
        proof {
            assert(final(self)@.subscribers =~= old(self)@.subscribers.push(rv));
            assert(final(self)@.tokens =~= old(self)@.tokens);
        }
        Ok(id)
    }

    /// Stores a confirmation token for the subscriber.
    pub fn store_token(&mut self, subscriber_id: u128, subscription_token: &String)
        ensures
            final(self)@.tokens == old(self)@.tokens.push(
                TokenRecordView { subscription_token: subscription_token@, subscriber_id },
            ),
            final(self)@.subscribers == old(self)@.subscribers,
    {
        let record = TokenRecord { subscription_token: subscription_token.clone(), subscriber_id };
        let ghost tv = record@;
        self.tokens.push(record);
        proof {
            assert(final(self)@.tokens =~= old(self)@.tokens.push(tv));
            assert(final(self)@.subscribers =~= old(self)@.subscribers);
        }
    }

    /// The id the token was stored for, if the token is known.
    pub fn get_subscriber_id_from_token(&self, subscription_token: &String) -> (r: Option<u128>)
        ensures
            match find_token(self@.tokens, subscription_token@) {
                Some(i) => r == Some(self@.tokens[i].subscriber_id),
                None => r is None,
            },
    {
        let n = self.tokens.len();
        let mut i: usize = 0;
        while i < n
            invariant
                n == self@.tokens.len(),
                i <= n,
                find_token(self@.tokens, subscription_token@) == find_token_from(
                    self@.tokens,
                    subscription_token@,
                    i as int,
                ),
            decreases n - i,
        {
            if self.tokens[i].subscription_token == *subscription_token {
                assert(self@.tokens[i as int].subscription_token == subscription_token@);
                return Some(self.tokens[i].subscriber_id);
            }
            assert(self@.tokens[i as int].subscription_token != subscription_token@);
            i = i + 1;
        }
        None
    }

    /// Marks the subscriber with the given id as confirmed. An unknown id
    /// changes nothing.
    pub fn confirm_subscriber(&mut self, subscriber_id: u128)
        ensures
            final(self)@.tokens == old(self)@.tokens,
            final(self)@.subscribers == (match find_subscriber(old(self)@.subscribers, subscriber_id) {
                Some(i) => old(self)@.subscribers.update(
                    i,
                    SubscriberRecordView {
                        id: old(self)@.subscribers[i].id,
                        email: old(self)@.subscribers[i].email,
                        name: old(self)@.subscribers[i].name,
                        status: SubscriberStatus::Confirmed,
                    },
                ),
                None => old(self)@.subscribers,
            }),
    {
        let n = self.subscribers.len();
        let mut i: usize = 0;
        while i < n
            invariant
                n == self@.subscribers.len(),
                i <= n,
                find_subscriber(self@.subscribers, subscriber_id) == find_subscriber_from(
                    self@.subscribers,
                    subscriber_id,
                    i as int,
                ),
                self == old(self),
            decreases n - i,
        {
            if self.subscribers[i].id == subscriber_id {
                let updated = SubscriberRecord {
                    id: self.subscribers[i].id,
                    email: self.subscribers[i].email.clone(),
                    name: self.subscribers[i].name.clone(),
                    status: SubscriberStatus::Confirmed,
                };
                let ghost uv = updated@;
                self.subscribers[i] = updated;
                proof {
                    assert(final(self)@.subscribers =~= old(self)@.subscribers.update(i as int, uv));
                    assert(final(self)@.tokens =~= old(self)@.tokens);
                }
                return ;
            }
            i = i + 1;
        }
    }

    /// How many subscriber rows the directory holds.
    pub fn subscriber_count(&self) -> (r: usize)
        ensures
            r == self@.subscribers.len(),
    {
        self.subscribers.len()
    }

    /// The subscriber row at the given position.
    pub fn subscriber_at(&self, index: usize) -> (r: &SubscriberRecord)
        requires
            index < self@.subscribers.len(),
        ensures
            r@ == self@.subscribers[index as int],
    {
        &self.subscribers[index]
    }

    /// How many token rows the directory holds.
    pub fn token_count(&self) -> (r: usize)
        ensures
            r == self@.tokens.len(),
    {
        self.tokens.len()
    }

    /// The token row at the given position.
    pub fn token_at(&self, index: usize) -> (r: &TokenRecord)
        requires
            index < self@.tokens.len(),
        ensures
            r@ == self@.tokens[index as int],
    {
        &self.tokens[index]
    }

    /// The confirmed subscribers' email addresses, read at issue-creation
    /// time by the publish command handler.
    pub fn list_confirmed_subscribers(&self) -> (r: Vec<String>)
        ensures
            r@.map_values(|s: String| s@) == confirmed_emails(self@.subscribers),
    {
        let ghost subs = self@.subscribers;
        let n = self.subscribers.len();
        let mut r: Vec<String> = Vec::new();
        let mut i: usize = 0;
        proof {
            assert(subs.take(0) =~= Seq::<SubscriberRecordView>::empty());
            assert(r@.map_values(|s: String| s@) =~= confirmed_emails(subs.take(0)));
        }
        while i < n
            invariant
                n == subs.len(),
                subs == self@.subscribers,
                i <= n,
                r@.map_values(|s: String| s@) == confirmed_emails(subs.take(i as int)),
            decreases n - i,
        {
            let confirmed = match self.subscribers[i].status {
                SubscriberStatus::Confirmed => true,
                SubscriberStatus::PendingConfirmation => false,
            };
            proof {
                assert(subs.take(i as int + 1).drop_last() =~= subs.take(i as int));
                assert(subs.take(i as int + 1).last() == subs[i as int]);
            }
            if confirmed {
                r.push(self.subscribers[i].email.clone());
                proof {
                    assert(r@.map_values(|s: String| s@) =~= confirmed_emails(
                        subs.take(i as int + 1),
                    ));
                }
            } else {
                proof {
                    assert(r@.map_values(|s: String| s@) =~= confirmed_emails(
                        subs.take(i as int + 1),
                    ));
                }
            }
            i = i + 1;
        }
        proof {
            assert(subs.take(n as int) =~= subs);
        }
        r
    }
}

/// Law (confirmed-only delivery, never): an issue published while no
/// directory row holds the address as confirmed — in particular while the
/// subscriber is still pending confirmation — produces no delivery task
/// for that address, whatever the submission decides.
pub proof fn lemma_unconfirmed_never_delivered(
    directory: Seq<SubscriberRecordView>,
    records: Seq<RecordView>,
    issues: Seq<IssueView>,
    tasks: Seq<TaskView>,
    publisher_id: u128,
    form: PublishFormView,
    issue_id: u128,
    address: Seq<char>,
)
    requires
        forall|i: int|
            0 <= i < directory.len() && directory[i].email == address ==> !(
            directory[i].status is Confirmed),
    ensures
        ({
            let t = publish_spec(
                records,
                issues,
                tasks,
                publisher_id,
                form,
                confirmed_emails(directory),
                issue_id,
            );
            forall|j: int| tasks.len() <= j < t.tasks.len() ==> t.tasks[j].recipient != address
        }),
{
    lemma_confirmed_emails_contains(directory, address);
    publish::lemma_no_task_for_unlisted(
        records,
        issues,
        tasks,
        publisher_id,
        form,
        confirmed_emails(directory),
        issue_id,
        address,
    );
}

/// Law (confirmed-only delivery, once confirmed): after the subscriber has
/// confirmed, a subsequently published fresh, valid issue does produce a
/// pending delivery task for their address.
pub proof fn lemma_confirmed_gets_delivery(
    directory: Seq<SubscriberRecordView>,
    records: Seq<RecordView>,
    issues: Seq<IssueView>,
    tasks: Seq<TaskView>,
    publisher_id: u128,
    form: PublishFormView,
    issue_id: u128,
    address: Seq<char>,
)
    requires
        exists|i: int|
            0 <= i < directory.len() && directory[i].status is Confirmed && directory[i].email
                == address,
        find_state(records, publisher_id, form.idempotency_key) is None,
        valid_issue(form.title, form.text_content, form.html_content),
    ensures
        ({
            let t = publish_spec(
                records,
                issues,
                tasks,
                publisher_id,
                form,
                confirmed_emails(directory),
                issue_id,
            );
            exists|j: int|
                tasks.len() <= j < t.tasks.len() && t.tasks[j].recipient == address
                    && t.tasks[j].issue_id == issue_id && t.tasks[j].status is Pending
        }),
{
    lemma_confirmed_emails_contains(directory, address);
    publish::lemma_task_for_listed(
        records,
        issues,
        tasks,
        publisher_id,
        form,
        confirmed_emails(directory),
        issue_id,
        address,
    );
}

} // verus!
