//! The durable fan-out delivery queue and its dequeue/lock protocol. A row's
//! presence is the sole source of truth for "delivery not yet finished":
//! existence means pending, absence means done. Claiming takes an exclusive
//! row lock and skips rows locked by other in-flight claims, so concurrent
//! workers always receive disjoint rows; a claim is released either by
//! deleting the row (success) or by dropping the lock (crash or rollback),
//! after which the row is claimable again.

use vstd::prelude::*;
use vstd::pervasive::VecAdditionalExecFns;

verus! {

/// One pending delivery task: an issue to send and a recipient address. The
/// address may be malformed; validity is checked at dequeue time, not at
/// enqueue time.
#[derive(Debug)]
pub struct TaskRow {
    newsletter_issue_id: u128,
    subscriber_email: String,
    locked: bool,
}

/// Ghost image of a queue row; `locked` mirrors the row lock a claim holds.
#[verifier::ext_equal]
pub struct TaskView {
    pub issue_id: u128,
    pub email: Seq<char>,
    pub locked: bool,
}

impl View for TaskRow {
    type V = TaskView;

    closed spec fn view(&self) -> TaskView {
        TaskView {
            issue_id: self.newsletter_issue_id,
            email: self.subscriber_email@,
            locked: self.locked,
        }
    }
}

impl TaskRow {
    /// The newsletter issue the row belongs to.
    pub fn newsletter_issue_id(&self) -> (id: u128)
        ensures
            id == self@.issue_id,
    {
        self.newsletter_issue_id
    }

    /// The recipient's stored address, as stored — possibly malformed.
    pub fn subscriber_email(&self) -> (email: &str)
        ensures
            email@ == self@.email,
    {
        self.subscriber_email.as_str()
    }

    /// Whether an in-flight claim currently holds this row's lock.
    pub fn is_locked(&self) -> (locked: bool)
        ensures
            locked == self@.locked,
    {
        self.locked
    }
}

/// Ghost image of a row sequence.
pub open spec fn rows_view(rows: Seq<TaskRow>) -> Seq<TaskView> {
    rows.map_values(|r: TaskRow| r@)
}

/// A row sequence and its ghost image have the same length.
pub broadcast proof fn lemma_rows_view_len(rows: Seq<TaskRow>)
    ensures
        #[trigger] rows_view(rows).len() == rows.len(),
{
}

/// The ghost image of a row sequence is the rows' views, index by index.
pub broadcast proof fn lemma_rows_view_index(rows: Seq<TaskRow>, i: int)
    requires
        0 <= i < rows.len(),
    ensures
        #[trigger] rows_view(rows)[i] == rows[i]@,
{
}

/// Some row is claimable: present and not locked by another claim.
pub open spec fn has_unlocked(q: Seq<TaskView>) -> bool {
    exists|i: int| 0 <= i < q.len() && !(#[trigger] q[i]).locked
}

/// The index the claim protocol picks: the first row not locked by another
/// in-flight claim (callers get no ordering promise beyond this model's).
/// Equals the length when every row is locked.
pub open spec fn first_unlocked(q: Seq<TaskView>) -> int
    decreases q.len(),
{
    if q.len() == 0 {
        0
    } else if !q[0].locked {
        0
    } else {
        1 + first_unlocked(q.drop_first())
    }
}

/// The same task with its row lock taken.
pub open spec fn locked_task(t: TaskView) -> TaskView {
    TaskView { issue_id: t.issue_id, email: t.email, locked: true }
}

/// The same task with its row lock released.
pub open spec fn unlocked_task(t: TaskView) -> TaskView {
    TaskView { issue_id: t.issue_id, email: t.email, locked: false }
}

/// What `first_unlocked` picks is a claimable row, and every row before it is
/// locked.
pub proof fn lemma_first_unlocked(q: Seq<TaskView>)
    requires
        has_unlocked(q),
    ensures
        0 <= first_unlocked(q) < q.len(),
        !q[first_unlocked(q)].locked,
        forall|j: int| 0 <= j < first_unlocked(q) ==> (#[trigger] q[j]).locked,
    decreases q.len(),
{
    if q.len() > 0 && q[0].locked {
        assert(has_unlocked(q.drop_first())) by {
            let i = choose|i: int| 0 <= i < q.len() && !(#[trigger] q[i]).locked;
            assert(!q.drop_first()[i - 1].locked);
        }
        lemma_first_unlocked(q.drop_first());
        assert forall|j: int| 0 <= j < first_unlocked(q) implies (#[trigger] q[j]).locked by {
            if j >= 1 {
                assert(q.drop_first()[j - 1] == q[j]);
                assert(q.drop_first()[j - 1].locked);
            }
        }
    }
}

/// A linear scan that stops at the first claimable row lands exactly on
/// `first_unlocked`.
proof fn lemma_first_unlocked_is(q: Seq<TaskView>, i: int)
    requires
        0 <= i < q.len(),
        !q[i].locked,
        forall|j: int| 0 <= j < i ==> (#[trigger] q[j]).locked,
    ensures
        first_unlocked(q) == i,
    decreases i,
{
    if i > 0 {
        assert(forall|j: int|
            0 <= j < i - 1 ==> (#[trigger] q.drop_first()[j]) == q[j + 1]);
        lemma_first_unlocked_is(q.drop_first(), i - 1);
    }
}

/// A live claim on one queue row: the handle a worker holds while it attempts
/// a delivery. It must be finalized by `delete_task` (remove and commit) or
/// released by `abandon_task` (the model of a rollback or a crashed worker's
/// connection teardown).
#[derive(Debug)]
pub struct TaskLease {
    pub row_index: usize,
    pub newsletter_issue_id: u128,
    pub subscriber_email: String,
}

/// The lease matches a row that is present and holds its lock.
pub open spec fn valid_lease(q: Seq<TaskView>, lease: TaskLease) -> bool {
    &&& 0 <= lease.row_index < q.len()
    &&& q[lease.row_index as int].locked
    &&& q[lease.row_index as int].issue_id == lease.newsletter_issue_id
    &&& q[lease.row_index as int].email == lease.subscriber_email@
}

/// The queue table. All coordination between workers goes through the row
/// locks; there is no other shared state.
pub struct DeliveryQueue {
    rows: Vec<TaskRow>,
}

impl View for DeliveryQueue {
    type V = Seq<TaskView>;

    closed spec fn view(&self) -> Seq<TaskView> {
        rows_view(self.rows@)
    }
}

/// The tasks a fan-out inserts: one unlocked row per recipient, in order.
pub open spec fn fanout_views(issue_id: u128, recipients: Seq<String>) -> Seq<TaskView> {
    recipients.map_values(
        |r: String| TaskView { issue_id: issue_id, email: r@, locked: false },
    )
}

/// A fan-out image has one task per recipient.
pub broadcast proof fn lemma_fanout_views_len(issue_id: u128, recipients: Seq<String>)
    ensures
        #[trigger] fanout_views(issue_id, recipients).len() == recipients.len(),
{
}

/// Each fan-out task carries the issue and one recipient, unlocked.
pub broadcast proof fn lemma_fanout_views_index(issue_id: u128, recipients: Seq<String>, i: int)
    requires
        0 <= i < recipients.len(),
    ensures
        #[trigger] fanout_views(issue_id, recipients)[i] == (TaskView {
            issue_id: issue_id,
            email: recipients[i]@,
            locked: false,
        }),
{
}



impl DeliveryQueue {
    /// An empty queue.
    pub fn new() -> (r: DeliveryQueue)
        ensures
            r@ == Seq::<TaskView>::empty(),
    {
        broadcast use lemma_rows_view_len, lemma_rows_view_index;

        let r = DeliveryQueue { rows: Vec::new() };
        proof {
            assert(r@ =~= Seq::<TaskView>::empty());
        }
        r
    }

    /// How many rows are pending (locked ones included: a locked row is still
    /// unfinished).
    pub fn len(&self) -> (n: usize)
        ensures
            n == self@.len(),
    {
        broadcast use lemma_rows_view_len;

        self.rows.len()
    }

    /// The row at an index.
    pub fn get(&self, i: usize) -> (row: &TaskRow)
        requires
            i < self@.len(),
        ensures
            row@ == self@[i as int],
    {
        broadcast use lemma_rows_view_len, lemma_rows_view_index;

        &self.rows[i]
    }

    /// Inserts one row per recipient for the given issue. Runs inside the
    /// same unit of work as issue creation, so "issue exists" and "its tasks
    /// exist" are atomic for every observer of the combined state. Addresses
    /// are stored as-is; the worker validates them at dequeue time.
    pub fn enqueue_fanout(&mut self, newsletter_issue_id: u128, recipients: &Vec<String>)
        ensures
            final(self)@ == old(self)@ + fanout_views(newsletter_issue_id, recipients@),
    {
        broadcast use lemma_rows_view_len, lemma_rows_view_index, lemma_fanout_views_len, lemma_fanout_views_index;

        let ghost pre = self@;
        let mut i: usize = 0;
        while i < recipients.len()
            invariant
                i <= recipients@.len(),
                pre == old(self)@,
                self@.len() == pre.len() + i,
                forall|j: int| 0 <= j < pre.len() ==> self@[j] == #[trigger] pre[j],
                forall|j: int|
                    0 <= j < i ==> self@[pre.len() + j] == (TaskView {
                        issue_id: newsletter_issue_id,
                        email: (#[trigger] recipients@[j])@,
                        locked: false,
                    }),
            decreases recipients@.len() - i,
        {
            let row = TaskRow {
                newsletter_issue_id,
                subscriber_email: recipients[i].clone(),
                locked: false,
            };
            self.rows.push(row);
            i = i + 1;
        }
        proof {
            assert(self@ =~= old(self)@ + fanout_views(newsletter_issue_id, recipients@));
        }
    }

    /// The dequeue/lock protocol: claims exactly one pending row, taking its
    /// exclusive lock and skipping rows already locked by other in-flight
    /// claims, so concurrent workers never receive the same row. Returns
    /// nothing — and changes nothing — when every row is locked or the queue
    /// is empty.
    pub fn claim_one(&mut self) -> (r: Option<TaskLease>)
        ensures
            r is Some <==> has_unlocked(old(self)@),
            r is None ==> final(self)@ == old(self)@,
            r matches Some(lease) ==> ({
                let i = first_unlocked(old(self)@);
                &&& lease.row_index == i
                &&& lease.newsletter_issue_id == old(self)@[i].issue_id
                &&& lease.subscriber_email@ == old(self)@[i].email
                &&& final(self)@ == old(self)@.update(i, locked_task(old(self)@[i]))
                &&& valid_lease(final(self)@, lease)
            }),
    {
        broadcast use lemma_rows_view_len, lemma_rows_view_index;

        let mut i: usize = 0;
        while i < self.rows.len()
            invariant
                self@ == old(self)@,
                i <= self@.len(),
                forall|j: int| 0 <= j < i ==> (#[trigger] self@[j]).locked,
            decreases self@.len() - i,
        {
            if !self.rows[i].locked {
                proof {
                    lemma_first_unlocked_is(self@, i as int);
                }
                let issue_id = self.rows[i].newsletter_issue_id;
                let email = self.rows[i].subscriber_email.clone();
                let claimed = TaskRow {
                    newsletter_issue_id: issue_id,
                    subscriber_email: self.rows[i].subscriber_email.clone(),
                    locked: true,
                };
                proof {
                    assert(claimed@ =~= locked_task(old(self)@[i as int]));
                }
                self.rows.set(i, claimed);
                proof {
                    assert(self@ =~= old(self)@.update(i as int, locked_task(old(self)@[i as int])));
                }
                return Some(
                    TaskLease { row_index: i, newsletter_issue_id: issue_id, subscriber_email: email },
                );
            }
            i = i + 1;
        }
        None
    }

    /// Finalizes a claim after a processing attempt: deletes the claimed row
    /// and commits in one step. Whether the send succeeded or the failure was
    /// classified and logged, the row is removed — existence means pending,
    /// absence means done.
    pub fn delete_task(&mut self, lease: TaskLease)
        requires
            valid_lease(old(self)@, lease),
        ensures
            final(self)@ == old(self)@.remove(lease.row_index as int),
    {
        broadcast use lemma_rows_view_len, lemma_rows_view_index;

        self.rows.remove(lease.row_index);
        proof {
            assert(self@ =~= old(self)@.remove(lease.row_index as int));
        }
    }

    /// Releases a claim without deleting the row: the model of a rollback, or
    /// of a crashed worker whose connection teardown drops the lock. The row
    /// stays and becomes claimable again — the sole recovery mechanism.
    pub fn abandon_task(&mut self, lease: TaskLease)
        requires
            valid_lease(old(self)@, lease),
        ensures
            final(self)@ == old(self)@.update(
                lease.row_index as int,
                unlocked_task(old(self)@[lease.row_index as int]),
            ),
    {
        broadcast use lemma_rows_view_len, lemma_rows_view_index;

        let i = lease.row_index;
        let released = TaskRow {
            newsletter_issue_id: self.rows[i].newsletter_issue_id,
            subscriber_email: self.rows[i].subscriber_email.clone(),
            locked: false,
        };
        proof {
            assert(released@ =~= unlocked_task(old(self)@[i as int]));
        }
        self.rows.set(i, released);
        proof {
            assert(self@ =~= old(self)@.update(
                i as int,
                unlocked_task(old(self)@[i as int]),
            ));
        }
    }
}

/// Law — exclusive claim: when a claim succeeds, a second claim issued on the
/// resulting state never receives the same row; when another claimable row
/// remained, the second claim does succeed, on that other row; and when the
/// claimed row was the only claimable one, the second claim comes back empty.
pub proof fn lemma_exclusive_claim(q: Seq<TaskView>)
    requires
        has_unlocked(q),
    ensures
        ({
            let i1 = first_unlocked(q);
            let after_first = q.update(i1, locked_task(q[i1]));
            &&& has_unlocked(after_first) ==> first_unlocked(after_first) != i1
            &&& (exists|j: int| 0 <= j < q.len() && j != i1 && !(#[trigger] q[j]).locked)
                ==> has_unlocked(after_first)
            &&& (forall|j: int| 0 <= j < q.len() && !(#[trigger] q[j]).locked ==> j == i1)
                ==> !has_unlocked(after_first)
        }),
{
    let i1 = first_unlocked(q);
    let after_first = q.update(i1, locked_task(q[i1]));
    lemma_first_unlocked(q);
    if has_unlocked(after_first) {
        lemma_first_unlocked(after_first);
        assert(after_first[i1].locked);
    }
    if exists|j: int| 0 <= j < q.len() && j != i1 && !(#[trigger] q[j]).locked {
        let j = choose|j: int| 0 <= j < q.len() && j != i1 && !(#[trigger] q[j]).locked;
        assert(!after_first[j].locked);
    }
    if forall|j: int| 0 <= j < q.len() && !(#[trigger] q[j]).locked ==> j == i1 {
        assert forall|j: int| 0 <= j < after_first.len() implies (#[trigger] after_first[j]).locked
        by {
            if j != i1 {
                assert(after_first[j] == q[j]);
            }
        }
    }
}

/// Law — crash recovery: a claim that is abandoned before finalizing (the
/// worker died, the transaction never committed) leaves the queue exactly as
/// it was; the row is still present and the next claim picks it again.
pub proof fn lemma_crash_recovery(q: Seq<TaskView>)
    requires
        has_unlocked(q),
    ensures
        ({
            let i = first_unlocked(q);
            let claimed = q.update(i, locked_task(q[i]));
            let released = claimed.update(i, unlocked_task(claimed[i]));
            &&& released == q
            &&& has_unlocked(released) && first_unlocked(released) == i
        }),
{
    let i = first_unlocked(q);
    lemma_first_unlocked(q);
    let claimed = q.update(i, locked_task(q[i]));
    let released = claimed.update(i, unlocked_task(claimed[i]));
    assert(released =~= q);
}

} // verus!
