//! Idempotency store: persists, per (publisher identity, idempotency key),
//! either an "in progress" marker or the cached response of a completed
//! publish command. The atomic insert-if-absent in [`IdempotencyStore::begin`]
//! is the serialisation point that makes duplicate submissions safe.

use vstd::prelude::*;
use crate::routes::{Response, ResponseView};

verus! {

/// What the store holds for one (publisher, key) pair: a first request is
/// currently executing the side-effecting work, or the work is done and its
/// response is cached for replay.
pub enum RecordState {
    InProgress,
    Completed { status_code: u16, response_body: String },
}

/// The mathematical value of a [`RecordState`].
pub enum RecordStateView {
    InProgress,
    Completed { status_code: u16, response_body: Seq<char> },
}

impl View for RecordState {
    type V = RecordStateView;

    open spec fn view(&self) -> RecordStateView {
        match self {
            RecordState::InProgress => RecordStateView::InProgress,
            RecordState::Completed { status_code, response_body } => RecordStateView::Completed {
                status_code: *status_code,
                response_body: response_body@,
            },
        }
    }
}

/// One row of the store.
pub struct IdempotencyRecord {
    pub publisher_id: u128,
    pub idempotency_key: String,
    pub state: RecordState,
}

/// The mathematical value of an [`IdempotencyRecord`].
pub struct RecordView {
    pub publisher_id: u128,
    pub idempotency_key: Seq<char>,
    pub state: RecordStateView,
}

impl View for IdempotencyRecord {
    type V = RecordView;

    open spec fn view(&self) -> RecordView {
        RecordView {
            publisher_id: self.publisher_id,
            idempotency_key: self.idempotency_key@,
            state: self.state@,
        }
    }
}

/// Whether a record belongs to the given (publisher, key) pair.
pub open spec fn record_matches(r: RecordView, publisher_id: u128, idempotency_key: Seq<char>) -> bool {
    r.publisher_id == publisher_id && r.idempotency_key == idempotency_key
}

/// Index of the first record for the pair, searching from position `i`.
pub open spec fn find_index_from(
    s: Seq<RecordView>,
    publisher_id: u128,
    idempotency_key: Seq<char>,
    i: int,
) -> Option<int>
    decreases s.len() - i,
{
    if i < 0 || i >= s.len() {
        None
    } else if record_matches(s[i], publisher_id, idempotency_key) {
        Some(i)
    } else {
        find_index_from(s, publisher_id, idempotency_key, i + 1)
    }
}

/// Index of the first record for the pair, if any.
pub open spec fn find_index(s: Seq<RecordView>, publisher_id: u128, idempotency_key: Seq<char>) -> Option<int> {
    find_index_from(s, publisher_id, idempotency_key, 0)
}

/// State of the first record for the pair, if any.
pub open spec fn find_state(s: Seq<RecordView>, publisher_id: u128, idempotency_key: Seq<char>) -> Option<RecordStateView> {
    match find_index(s, publisher_id, idempotency_key) {
        Some(i) => Some(s[i].state),
        None => None,
    }
}

/// A found index lies in range and points at a matching record, and every
/// position before it holds no match.
pub proof fn lemma_find_index_from_properties(
    s: Seq<RecordView>,
    publisher_id: u128,
    idempotency_key: Seq<char>,
    i: int,
)
    requires
        0 <= i <= s.len(),
    ensures
        find_index_from(s, publisher_id, idempotency_key, i) matches Some(j) ==> i <= j < s.len()
            && record_matches(s[j], publisher_id, idempotency_key),
        find_index_from(s, publisher_id, idempotency_key, i) is None ==> forall|j: int|
            i <= j < s.len() ==> !record_matches(s[j], publisher_id, idempotency_key),
    decreases s.len() - i,
{
    if i < s.len() && !record_matches(s[i], publisher_id, idempotency_key) {
        lemma_find_index_from_properties(s, publisher_id, idempotency_key, i + 1);
    }
}

/// Searching a sequence extended by one record: an existing match wins;
/// otherwise only the new record can match, at the end.
pub proof fn lemma_find_push_from(
    s: Seq<RecordView>,
    r: RecordView,
    publisher_id: u128,
    idempotency_key: Seq<char>,
    i: int,
)
    requires
        0 <= i <= s.len(),
    ensures
        find_index_from(s.push(r), publisher_id, idempotency_key, i) == (
            match find_index_from(s, publisher_id, idempotency_key, i) {
                Some(j) => Some(j),
                None => if record_matches(r, publisher_id, idempotency_key) {
                    Some(s.len() as int)
                } else {
                    None
                },
            }
        ),
    decreases s.len() - i,
{
    if i < s.len() {
        assert(s.push(r)[i] == s[i]);
        lemma_find_push_from(s, r, publisher_id, idempotency_key, i + 1);
        if record_matches(s[i], publisher_id, idempotency_key) {
            assert(find_index_from(s, publisher_id, idempotency_key, i) == Some(i));
            assert(find_index_from(s.push(r), publisher_id, idempotency_key, i) == Some(i));
        } else {
            assert(find_index_from(s, publisher_id, idempotency_key, i) == find_index_from(
                s,
                publisher_id,
                idempotency_key,
                i + 1,
            ));
            assert(find_index_from(s.push(r), publisher_id, idempotency_key, i) == find_index_from(
                s.push(r),
                publisher_id,
                idempotency_key,
                i + 1,
            ));
        }
    } else {
        assert(i == s.len());
        assert(s.push(r)[i] == r);
        assert(find_index_from(s, publisher_id, idempotency_key, i) is None);
        if record_matches(r, publisher_id, idempotency_key) {
            assert(find_index_from(s.push(r), publisher_id, idempotency_key, i) == Some(i));
        } else {
            assert(find_index_from(s.push(r), publisher_id, idempotency_key, i + 1) is None);
            assert(find_index_from(s.push(r), publisher_id, idempotency_key, i) is None);
        }
    }
}

/// Searching a sequence extended by one record, from the start.
pub proof fn lemma_find_push(s: Seq<RecordView>, r: RecordView, publisher_id: u128, idempotency_key: Seq<char>)
    ensures
        find_index(s.push(r), publisher_id, idempotency_key) == (
            match find_index(s, publisher_id, idempotency_key) {
                Some(j) => Some(j),
                None => if record_matches(r, publisher_id, idempotency_key) {
                    Some(s.len() as int)
                } else {
                    None
                },
            }
        ),
{
    lemma_find_push_from(s, r, publisher_id, idempotency_key, 0);
}

/// Replacing the found record with another record for the same pair leaves
/// the search pointing at the replacement.
pub proof fn lemma_find_update_match_from(
    s: Seq<RecordView>,
    r: RecordView,
    publisher_id: u128,
    idempotency_key: Seq<char>,
    i: int,
    j: int,
)
    requires
        0 <= j <= s.len(),
        find_index_from(s, publisher_id, idempotency_key, j) == Some(i),
        record_matches(r, publisher_id, idempotency_key),
    ensures
        find_index_from(s.update(i, r), publisher_id, idempotency_key, j) == Some(i),
    decreases s.len() - j,
{
    lemma_find_index_from_properties(s, publisher_id, idempotency_key, j);
    if j < s.len() {
        if record_matches(s[j], publisher_id, idempotency_key) {
            assert(i == j);
            assert(s.update(i, r)[j] == r);
        } else {
            assert(i != j);
            assert(s.update(i, r)[j] == s[j]);
            lemma_find_update_match_from(s, r, publisher_id, idempotency_key, i, j + 1);
        }
    }
}

/// Outcome of [`IdempotencyStore::begin`].
pub enum BeginOutcome {
    /// The caller won the insert and holds the exclusive right to perform the
    /// side-effecting work; it must later call `complete` in the same atomic
    /// unit that records the work.
    Started,
    /// The work was already done: the cached response must be replayed
    /// verbatim.
    AlreadyCompleted(Response),
    /// Another submission currently holds the key: the caller must wait for
    /// it to resolve, never run the work a second time.
    AlreadyInProgress,
}

/// The mathematical value of a [`BeginOutcome`].
pub enum BeginOutcomeView {
    Started,
    AlreadyCompleted(ResponseView),
    AlreadyInProgress,
}

impl View for BeginOutcome {
    type V = BeginOutcomeView;

    open spec fn view(&self) -> BeginOutcomeView {
        match self {
            BeginOutcome::Started => BeginOutcomeView::Started,
            BeginOutcome::AlreadyCompleted(r) => BeginOutcomeView::AlreadyCompleted(r@),
            BeginOutcome::AlreadyInProgress => BeginOutcomeView::AlreadyInProgress,
        }
    }
}

/// What `begin` decides and how it changes the store.
pub open spec fn begin_spec(
    s: Seq<RecordView>,
    publisher_id: u128,
    idempotency_key: Seq<char>,
) -> (BeginOutcomeView, Seq<RecordView>) {
    match find_state(s, publisher_id, idempotency_key) {
        None => (
            BeginOutcomeView::Started,
            s.push(RecordView { publisher_id, idempotency_key, state: RecordStateView::InProgress }),
        ),
        Some(RecordStateView::InProgress) => (BeginOutcomeView::AlreadyInProgress, s),
        Some(RecordStateView::Completed { status_code, response_body }) => (
            BeginOutcomeView::AlreadyCompleted(ResponseView { status: status_code, body: response_body }),
            s,
        ),
    }
}

/// How `complete` changes the store: the in-progress record of the pair is
/// replaced by the cached response.
pub open spec fn complete_spec(
    s: Seq<RecordView>,
    publisher_id: u128,
    idempotency_key: Seq<char>,
    response: ResponseView,
) -> Seq<RecordView> {
    match find_index(s, publisher_id, idempotency_key) {
        Some(i) => s.update(
            i,
            RecordView {
                publisher_id,
                idempotency_key,
                state: RecordStateView::Completed {
                    status_code: response.status,
                    response_body: response.body,
                },
            },
        ),
        None => s,
    }
}

/// Law (concurrent duplicate safety, exclusivity half): `begin` grants
/// `Started` at most once per key. As soon as one submission has been
/// granted `Started`, a second submission with the same key observes
/// `AlreadyInProgress`, so no second issue or task set is ever created for
/// the key.
pub proof fn lemma_begin_exclusive(s: Seq<RecordView>, publisher_id: u128, idempotency_key: Seq<char>)
    requires
        begin_spec(s, publisher_id, idempotency_key).0 is Started,
    ensures
        begin_spec(begin_spec(s, publisher_id, idempotency_key).1, publisher_id, idempotency_key).0
            is AlreadyInProgress,
{
    let r = RecordView { publisher_id, idempotency_key, state: RecordStateView::InProgress };
    lemma_find_push(s, r, publisher_id, idempotency_key);
}

/// Law (concurrent duplicate safety, agreement half): once the winner has
/// completed the key with some response, every later submission with the
/// same key observes `AlreadyCompleted` with exactly that response, so all
/// duplicate submissions return identical output.
pub proof fn lemma_complete_then_begin(
    s: Seq<RecordView>,
    publisher_id: u128,
    idempotency_key: Seq<char>,
    response: ResponseView,
)
    requires
        find_state(s, publisher_id, idempotency_key) == Some(RecordStateView::InProgress),
    ensures
        begin_spec(complete_spec(s, publisher_id, idempotency_key, response), publisher_id, idempotency_key)
            == (
            BeginOutcomeView::AlreadyCompleted(response),
            complete_spec(s, publisher_id, idempotency_key, response),
        ),
{
    assert(find_index(s, publisher_id, idempotency_key) is Some);
    let i = find_index(s, publisher_id, idempotency_key).unwrap();
    let r = RecordView {
        publisher_id,
        idempotency_key,
        state: RecordStateView::Completed {
            status_code: response.status,
            response_body: response.body,
        },
    };
    lemma_find_index_from_properties(s, publisher_id, idempotency_key, 0);
    assert(0 <= i < s.len());
    lemma_find_update_match_from(s, r, publisher_id, idempotency_key, i, 0);
    let s2 = complete_spec(s, publisher_id, idempotency_key, response);
    assert(s2 == s.update(i, r));
    assert(s2[i] == r);
    assert(find_index(s2, publisher_id, idempotency_key) == Some(i));
    assert(s2[i].state == RecordStateView::Completed {
        status_code: response.status,
        response_body: response.body,
    });
    assert(find_state(s2, publisher_id, idempotency_key) == Some(s2[i].state));
    assert(ResponseView { status: response.status, body: response.body } =~= response);
}

/// The durable idempotency store.
pub struct IdempotencyStore {
    records: Vec<IdempotencyRecord>,
}

impl View for IdempotencyStore {
    type V = Seq<RecordView>;

    closed spec fn view(&self) -> Seq<RecordView> {
        self.records@.map_values(|r: IdempotencyRecord| r@)
    }
}

impl IdempotencyStore {
    /// An empty store.
    pub fn new() -> (r: IdempotencyStore)
        ensures
            r@ == Seq::<RecordView>::empty(),
    {
        let r = IdempotencyStore { records: Vec::new() };
        proof {
            assert(r@ =~= Seq::<RecordView>::empty());
        }
        r
    }

    /// Index of the first record for the pair, if any.
    fn locate(&self, publisher_id: u128, idempotency_key: &String) -> (r: Option<usize>)
        ensures
            match r {
                Some(i) => i < self@.len() && find_index(self@, publisher_id, idempotency_key@)
                    == Some(i as int),
                None => find_index(self@, publisher_id, idempotency_key@) is None,
            },
    {
        let n = self.records.len();
        let mut i: usize = 0;
        while i < n
            invariant
                n == self@.len(),
                i <= n,
                find_index(self@, publisher_id, idempotency_key@) == find_index_from(
                    self@,
                    publisher_id,
                    idempotency_key@,
                    i as int,
                ),
            decreases n - i,
        {
            let rec = &self.records[i];
            if rec.publisher_id == publisher_id && rec.idempotency_key == *idempotency_key {
                assert(record_matches(self@[i as int], publisher_id, idempotency_key@));
                return Some(i);
            }
            assert(!record_matches(self@[i as int], publisher_id, idempotency_key@));
            i = i + 1;
        }
        None
    }

    /// Atomic insert-if-absent on the (publisher, key) pair: the winner is
    /// granted `Started` and the store now holds `InProgress` for the pair;
    /// a loser observes the present state instead, and the store is
    /// unchanged.
    pub fn begin(&mut self, publisher_id: u128, idempotency_key: &String) -> (r: BeginOutcome)
        ensures
            ({
                let (outcome, s) = begin_spec(old(self)@, publisher_id, idempotency_key@);
                r@ == outcome && final(self)@ == s
            }),
    {
        match self.locate(publisher_id, idempotency_key) {
            Some(i) => match &self.records[i].state {
                RecordState::InProgress => BeginOutcome::AlreadyInProgress,
                RecordState::Completed { status_code, response_body } => BeginOutcome::AlreadyCompleted(
                    Response { status: *status_code, body: response_body.clone() },
                ),
            },
            None => {
                let rec = IdempotencyRecord {
                    publisher_id,
                    idempotency_key: idempotency_key.clone(),
                    state: RecordState::InProgress,
                };
                self.records.push(rec);
                proof {
                    assert(final(self)@ =~= old(self)@.push(
                        RecordView {
                            publisher_id,
                            idempotency_key: idempotency_key@,
                            state: RecordStateView::InProgress,
                        },
                    ));
                }
                BeginOutcome::Started
            },
        }
    }

    /// Caches the response of the completed work under the pair. Must be
    /// called by the holder of `Started`, inside the same atomic unit that
    /// records the work itself.
    pub fn complete(&mut self, publisher_id: u128, idempotency_key: &String, response: &Response)
        requires
            find_state(old(self)@, publisher_id, idempotency_key@) == Some(RecordStateView::InProgress),
        ensures
            final(self)@ == complete_spec(old(self)@, publisher_id, idempotency_key@, response@),
    {
        let located = self.locate(publisher_id, idempotency_key);
        match located {
            Some(i) => {
                let rec = IdempotencyRecord {
                    publisher_id,
                    idempotency_key: idempotency_key.clone(),
                    state: RecordState::Completed {
                        status_code: response.status,
                        response_body: response.body.clone(),
                    },
                };
                self.records[i] = rec;
                proof {
                    let ghost target = complete_spec(
                        old(self)@,
                        publisher_id,
                        idempotency_key@,
                        response@,
                    );
                    assert(final(self)@ =~= target);
                }
            },
            None => {
                proof {
                    assert(false);
                }
            },
        }
    }

    /// Removes a dangling `InProgress` marker after an aborted transaction,
    /// so a later retry of the same key is not wedged forever. A completed
    /// record is never removed.
    pub fn abort(&mut self, publisher_id: u128, idempotency_key: &String)
        ensures
            final(self)@ == (match find_index(old(self)@, publisher_id, idempotency_key@) {
                Some(i) => if old(self)@[i].state is InProgress {
                    old(self)@.remove(i)
                } else {
                    old(self)@
                },
                None => old(self)@,
            }),
    {
        let located = self.locate(publisher_id, idempotency_key);
        match located {
            Some(i) => {
                let in_progress = match &self.records[i].state {
                    RecordState::InProgress => true,
                    RecordState::Completed { .. } => false,
                };
                if in_progress {
                    self.records.remove(i);
                    proof {
                        let ghost j = find_index(old(self)@, publisher_id, idempotency_key@).unwrap();
                        assert(final(self)@ =~= old(self)@.remove(j));
                    }
                }
            },
            None => {},
        }
    }
}

} // verus!
