//! Outbox store: the durable queue of delivery tasks, one per (issue,
//! confirmed subscriber) pair, created atomically alongside the issue
//! record. Workers claim tasks exclusively, and resolve them by deleting
//! (success), rescheduling with a bounded retry budget (transient failure),
//! or parking them as `Failed` for operator inspection (permanent failure).

use vstd::prelude::*;

verus! {

/// Where a delivery task stands in its life cycle.
#[derive(Clone, Copy, PartialEq, Eq, Structural, Debug)]
pub enum TaskStatus {
    /// Waiting to be claimed by a worker.
    Pending,
    /// Claimed by a worker; protected by a lease until `claimed_at +
    /// lease_seconds`.
    InFlight,
    /// Terminal: permanently failed or out of retry budget; retained for
    /// operator visibility, never retried.
    Failed,
}

/// One pending obligation to send a given issue to a given recipient.
pub struct DeliveryTask {
    pub issue_id: u128,
    pub recipient: String,
    pub status: TaskStatus,
    pub attempts: u32,
    pub claimed_at: Option<u64>,
}

/// The mathematical value of a [`DeliveryTask`].
#[verifier::ext_equal]
pub struct TaskView {
    pub issue_id: u128,
    pub recipient: Seq<char>,
    pub status: TaskStatus,
    pub attempts: u32,
    pub claimed_at: Option<u64>,
}

impl View for DeliveryTask {
    type V = TaskView;

    open spec fn view(&self) -> TaskView {
        TaskView {
            issue_id: self.issue_id,
            recipient: self.recipient@,
            status: self.status,
            attempts: self.attempts,
            claimed_at: self.claimed_at,
        }
    }
}

impl DeliveryTask {
    /// An exact copy of the task.
    pub fn duplicate(&self) -> (r: DeliveryTask)
        ensures
            r@ == self@,
    {
        DeliveryTask {
            issue_id: self.issue_id,
            recipient: self.recipient.clone(),
            status: self.status,
            attempts: self.attempts,
            claimed_at: self.claimed_at,
        }
    }
}

/// The mathematical value of an [`OutboxStore`].
#[verifier::ext_equal]
pub struct OutboxView {
    pub tasks: Seq<TaskView>,
    pub max_attempts: u32,
    pub lease_seconds: u64,
}

/// Whether a task may be claimed at time `now`: it is pending, or it is in
/// flight under a lease that has expired (its worker crashed mid-send).
pub open spec fn eligible(t: TaskView, now: u64, lease_seconds: u64) -> bool {
    ||| t.status is Pending
    ||| (t.status is InFlight && (t.claimed_at matches Some(c) && c + lease_seconds <= now))
}

/// Index of the first claimable task, searching from position `i`.
pub open spec fn first_eligible_from(s: Seq<TaskView>, now: u64, lease_seconds: u64, i: int) -> Option<int>
    decreases s.len() - i,
{
    if i < 0 || i >= s.len() {
        None
    } else if eligible(s[i], now, lease_seconds) {
        Some(i)
    } else {
        first_eligible_from(s, now, lease_seconds, i + 1)
    }
}

/// Index of the first claimable task, if any.
pub open spec fn first_eligible(s: Seq<TaskView>, now: u64, lease_seconds: u64) -> Option<int> {
    first_eligible_from(s, now, lease_seconds, 0)
}

/// A found index lies in range and points at a claimable task; a miss means
/// nothing is claimable.
pub proof fn lemma_first_eligible_from_properties(s: Seq<TaskView>, now: u64, lease_seconds: u64, i: int)
    requires
        0 <= i <= s.len(),
    ensures
        first_eligible_from(s, now, lease_seconds, i) matches Some(j) ==> i <= j < s.len()
            && eligible(s[j], now, lease_seconds),
        first_eligible_from(s, now, lease_seconds, i) is None ==> forall|j: int|
            i <= j < s.len() ==> !eligible(s[j], now, lease_seconds),
    decreases s.len() - i,
{
    if i < s.len() && !eligible(s[i], now, lease_seconds) {
        lemma_first_eligible_from_properties(s, now, lease_seconds, i + 1);
    }
}

/// The task as it stands right after a claim at time `now`.
pub open spec fn claimed_task(t: TaskView, now: u64) -> TaskView {
    TaskView {
        issue_id: t.issue_id,
        recipient: t.recipient,
        status: TaskStatus::InFlight,
        attempts: t.attempts,
        claimed_at: Some(now),
    }
}

/// The task as it stands after a retryable failure: the attempt is counted,
/// and the task returns to the queue while the retry budget lasts, else it
/// is parked as `Failed`.
pub open spec fn retried_task(t: TaskView, max_attempts: u32) -> TaskView {
    TaskView {
        issue_id: t.issue_id,
        recipient: t.recipient,
        status: if t.attempts + 1 < max_attempts {
            TaskStatus::Pending
        } else {
            TaskStatus::Failed
        },
        attempts: (t.attempts + 1) as u32,
        claimed_at: None,
    }
}

/// The task as it stands after a permanent failure: the attempt is counted
/// and the task is parked as `Failed`, terminal.
pub open spec fn failed_task(t: TaskView) -> TaskView {
    TaskView {
        issue_id: t.issue_id,
        recipient: t.recipient,
        status: TaskStatus::Failed,
        attempts: (t.attempts + 1) as u32,
        claimed_at: None,
    }
}

/// The fresh pending tasks for one issue, one per recipient, in order.
pub open spec fn pending_tasks(issue_id: u128, recipients: Seq<Seq<char>>) -> Seq<TaskView> {
    Seq::new(
        recipients.len(),
        |k: int| TaskView {
            issue_id,
            recipient: recipients[k],
            status: TaskStatus::Pending,
            attempts: 0,
            claimed_at: None,
        },
    )
}

/// The durable outbox.
pub struct OutboxStore {
    tasks: Vec<DeliveryTask>,
    max_attempts: u32,
    lease_seconds: u64,
}

impl View for OutboxStore {
    type V = OutboxView;

    closed spec fn view(&self) -> OutboxView {
        OutboxView {
            tasks: self.tasks@.map_values(|t: DeliveryTask| t@),
            max_attempts: self.max_attempts,
            lease_seconds: self.lease_seconds,
        }
    }
}

impl OutboxStore {
    /// An empty outbox with the given retry ceiling and claim lease.
    pub fn new(max_attempts: u32, lease_seconds: u64) -> (r: OutboxStore)
        requires
            max_attempts >= 1,
        ensures
            r@.tasks == Seq::<TaskView>::empty(),
            r@.max_attempts == max_attempts,
            r@.lease_seconds == lease_seconds,
    {
        let r = OutboxStore { tasks: Vec::new(), max_attempts, lease_seconds };
        proof {
            assert(r@.tasks =~= Seq::<TaskView>::empty());
        }
        r
    }

    /// Creates one pending delivery task per recipient for the issue,
    /// appended in the recipients' order.
    pub fn enqueue(&mut self, issue_id: u128, recipients: &Vec<String>)
        ensures
            final(self)@.tasks == old(self)@.tasks + pending_tasks(
                issue_id,
                recipients@.map_values(|s: String| s@),
            ),
            final(self)@.max_attempts == old(self)@.max_attempts,
            final(self)@.lease_seconds == old(self)@.lease_seconds,
    {
        let ghost rs = recipients@.map_values(|s: String| s@);
        let n = recipients.len();
        let mut k: usize = 0;
        while k < n
            invariant
                n == recipients@.len(),
                k <= n,
                rs == recipients@.map_values(|s: String| s@),
                self@.tasks == old(self)@.tasks + pending_tasks(issue_id, rs.take(k as int)),
                self@.max_attempts == old(self)@.max_attempts,
                self@.lease_seconds == old(self)@.lease_seconds,
            decreases n - k,
        {
            let task = DeliveryTask {
                issue_id,
                recipient: recipients[k].clone(),
                status: TaskStatus::Pending,
                attempts: 0,
                claimed_at: None,
            };
            let ghost tv = task@;
            self.tasks.push(task);
            proof {
                assert(tv == TaskView {
                    issue_id,
                    recipient: rs[k as int],
                    status: TaskStatus::Pending,
                    attempts: 0,
                    claimed_at: None,
                });
                assert(pending_tasks(issue_id, rs.take(k as int + 1)) =~= pending_tasks(
                    issue_id,
                    rs.take(k as int),
                ).push(tv));
                assert(self@.tasks =~= (old(self)@.tasks + pending_tasks(
                    issue_id,
                    rs.take(k as int),
                )).push(tv));
                assert(self@.tasks =~= old(self)@.tasks + pending_tasks(
                    issue_id,
                    rs.take(k as int + 1),
                ));
            }
            k = k + 1;
        }
        proof {
            assert(rs.take(n as int) =~= rs);
        }
    }

    /// Atomically selects the first claimable task, marks it in flight with
    /// `claimed_at = now`, and returns its position and a copy. Exclusive:
    /// a claimed task is not claimable again until its lease expires. `None`
    /// means the queue holds nothing claimable, and the worker should idle.
    pub fn claim_next(&mut self, now: u64) -> (r: Option<(usize, DeliveryTask)>)
        ensures
            final(self)@.max_attempts == old(self)@.max_attempts,
            final(self)@.lease_seconds == old(self)@.lease_seconds,
            match first_eligible(old(self)@.tasks, now, old(self)@.lease_seconds) {
                Some(i) => r matches Some(p) && p.0 as int == i && final(self)@.tasks == old(
                    self,
                )@.tasks.update(i, claimed_task(old(self)@.tasks[i], now)) && p.1@ == claimed_task(
                    old(self)@.tasks[i],
                    now,
                ),
                None => r is None && final(self)@.tasks == old(self)@.tasks,
            },
    {
        let n = self.tasks.len();
        let mut i: usize = 0;
        while i < n
            invariant
                n == self@.tasks.len(),
                i <= n,
                first_eligible(self@.tasks, now, self@.lease_seconds) == first_eligible_from(
                    self@.tasks,
                    now,
                    self@.lease_seconds,
                    i as int,
                ),
                self == old(self),
            decreases n - i,
        {
            let t = &self.tasks[i];
            let claimable = match t.status {
                TaskStatus::Pending => true,
                TaskStatus::InFlight => match t.claimed_at {
                    Some(c) => c <= now && now - c >= self.lease_seconds,
                    None => false,
                },
                TaskStatus::Failed => false,
            };
            if claimable {
                assert(eligible(self@.tasks[i as int], now, self@.lease_seconds));
                let updated = DeliveryTask {
                    issue_id: self.tasks[i].issue_id,
                    recipient: self.tasks[i].recipient.clone(),
                    status: TaskStatus::InFlight,
                    attempts: self.tasks[i].attempts,
                    claimed_at: Some(now),
                };
                let copy = updated.duplicate();
                self.tasks[i] = updated;
                proof {
                    assert(final(self)@.tasks =~= old(self)@.tasks.update(
                        i as int,
                        claimed_task(old(self)@.tasks[i as int], now),
                    ));
                }
                return Some((i, copy));
            }
            assert(!eligible(self@.tasks[i as int], now, self@.lease_seconds));
            i = i + 1;
        }
        None
    }

    /// Resolves a claimed task after a successful send: the row is deleted.
    pub fn resolve_success(&mut self, index: usize)
        requires
            index < old(self)@.tasks.len(),
            old(self)@.tasks[index as int].status is InFlight,
        ensures
            final(self)@.tasks == old(self)@.tasks.remove(index as int),
            final(self)@.max_attempts == old(self)@.max_attempts,
            final(self)@.lease_seconds == old(self)@.lease_seconds,
    {
        self.tasks.remove(index);
        proof {
            assert(final(self)@.tasks =~= old(self)@.tasks.remove(index as int));
        }
    }

    /// Resolves a claimed task after a retryable failure: the attempt is
    /// counted, and the task reverts to `Pending` while `attempts <
    /// max_attempts`, else it is parked as `Failed`.
    pub fn resolve_retry(&mut self, index: usize)
        requires
            index < old(self)@.tasks.len(),
            old(self)@.tasks[index as int].status is InFlight,
            old(self)@.tasks[index as int].attempts < u32::MAX,
        ensures
            final(self)@.tasks == old(self)@.tasks.update(
                index as int,
                retried_task(old(self)@.tasks[index as int], old(self)@.max_attempts),
            ),
            final(self)@.max_attempts == old(self)@.max_attempts,
            final(self)@.lease_seconds == old(self)@.lease_seconds,
    {
        let attempts = self.tasks[index].attempts + 1;
        let status = if attempts < self.max_attempts {
            TaskStatus::Pending
        } else {
            TaskStatus::Failed
        };
        let updated = DeliveryTask {
            issue_id: self.tasks[index].issue_id,
            recipient: self.tasks[index].recipient.clone(),
            status,
            attempts,
            claimed_at: None,
        };
        self.tasks[index] = updated;
        proof {
            assert(final(self)@.tasks =~= old(self)@.tasks.update(
                index as int,
                retried_task(old(self)@.tasks[index as int], old(self)@.max_attempts),
            ));
        }
    }

    /// Resolves a claimed task after a permanent failure: the attempt is
    /// counted and the task is parked as `Failed`, retained rather than
    /// deleted, for operator inspection.
    pub fn resolve_permanent(&mut self, index: usize)
        requires
            index < old(self)@.tasks.len(),
            old(self)@.tasks[index as int].status is InFlight,
            old(self)@.tasks[index as int].attempts < u32::MAX,
        ensures
            final(self)@.tasks == old(self)@.tasks.update(
                index as int,
                failed_task(old(self)@.tasks[index as int]),
            ),
            final(self)@.max_attempts == old(self)@.max_attempts,
            final(self)@.lease_seconds == old(self)@.lease_seconds,
    {
        let updated = DeliveryTask {
            issue_id: self.tasks[index].issue_id,
            recipient: self.tasks[index].recipient.clone(),
            status: TaskStatus::Failed,
            attempts: self.tasks[index].attempts + 1,
            claimed_at: None,
        };
        self.tasks[index] = updated;
        proof {
            assert(final(self)@.tasks =~= old(self)@.tasks.update(
                index as int,
                failed_task(old(self)@.tasks[index as int]),
            ));
        }
    }

    /// How many tasks the outbox currently holds, whatever their status.
    pub fn task_count(&self) -> (r: usize)
        ensures
            r == self@.tasks.len(),
    {
        self.tasks.len()
    }

    /// A copy of the task at the given position.
    pub fn task_at(&self, index: usize) -> (r: DeliveryTask)
        requires
            index < self@.tasks.len(),
        ensures
            r@ == self@.tasks[index as int],
    {
        self.tasks[index].duplicate()
    }

    /// The retry ceiling the outbox was created with.
    pub fn max_attempts(&self) -> (r: u32)
        ensures
            r == self@.max_attempts,
    {
        self.max_attempts
    }

    /// The claim lease the outbox was created with, in seconds.
    pub fn lease_seconds(&self) -> (r: u64)
        ensures
            r == self@.lease_seconds,
    {
        self.lease_seconds
    }
}

} // verus!
