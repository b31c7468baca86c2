//! The delivery worker protocol: one cycle claims a pending task, validates
//! the stored recipient address, loads the issue, attempts the send, and
//! finalizes by deleting the claimed row. Failures are classified — a
//! malformed address is permanent and the row is dropped without a send; a
//! transport failure is transient, logged, and the row is still dropped
//! (skip and move on, not bounded retry). A missing issue aborts the attempt
//! and releases the claim, so the row stays claimable. One bad row can never
//! stall the queue, and the loop itself never exits on a task's failure.

use vstd::prelude::*;
use crate::domain::{is_valid_email, validate_email};
use crate::issues::{IssueStore, IssueView};
use crate::queue::{
    first_unlocked, has_unlocked, unlocked_task, DeliveryQueue, TaskView,
    lemma_first_unlocked,
};

verus! {

/// How a completed task was settled; what the worker logs.
#[derive(Debug, PartialEq, Eq, Structural)]
pub enum DeliveryReport {
    /// The transport accepted the email.
    Delivered,
    /// The stored address is malformed: a permanent failure. The send was
    /// skipped and the row deleted — such a task is unrecoverable, not
    /// retryable.
    SkippedInvalidEmail,
    /// The transport failed: a transient failure, logged with its context;
    /// the row is still deleted by design rather than re-enqueued.
    SkippedTransportFailure,
}

/// What one worker cycle accomplished.
#[derive(Debug, PartialEq, Eq, Structural)]
pub enum ExecutionOutcome {
    /// A task was claimed and settled (its row is gone).
    TaskCompleted(DeliveryReport),
    /// No claimable task: the queue is empty or every row is locked by
    /// another in-flight worker.
    EmptyQueue,
}

/// A storage-level fault inside one cycle; the claim is released and the
/// loop backs off briefly instead of tight-looping.
#[derive(Debug, PartialEq, Eq, Structural)]
pub enum WorkerError {
    /// The claimed task references an issue the store does not hold.
    IssueNotFound,
}

/// What one worker cycle does to the queue, given which task the claim
/// protocol picks and how the outside world answers.
pub open spec fn cycle_spec(
    pre: Seq<TaskView>,
    issues: Map<u128, IssueView>,
    transport_delivers: bool,
) -> (Seq<TaskView>, Result<ExecutionOutcome, WorkerError>) {
    if !has_unlocked(pre) {
        (pre, Ok(ExecutionOutcome::EmptyQueue))
    } else {
        let i = first_unlocked(pre);
        let task = pre[i];
        if !is_valid_email(task.email) {
            (
                pre.remove(i),
                Ok(ExecutionOutcome::TaskCompleted(DeliveryReport::SkippedInvalidEmail)),
            )
        } else if !issues.dom().contains(task.issue_id) {
            (pre, Err(WorkerError::IssueNotFound))
        } else if transport_delivers {
            (pre.remove(i), Ok(ExecutionOutcome::TaskCompleted(DeliveryReport::Delivered)))
        } else {
            (
                pre.remove(i),
                Ok(ExecutionOutcome::TaskCompleted(DeliveryReport::SkippedTransportFailure)),
            )
        }
    }
}

/// One worker cycle over the modelled state. The outside send is represented
/// by `transport_delivers`: the cycle is verified for both answers, and for a
/// task with a malformed address the outcome provably does not depend on it —
/// no send is attempted there.
pub fn try_execute_task(
    queue: &mut DeliveryQueue,
    issues: &IssueStore,
    transport_delivers: bool,
) -> (r: Result<ExecutionOutcome, WorkerError>)
    requires
        issues.wf(),
    ensures
        (final(queue)@, r) == cycle_spec(old(queue)@, issues@, transport_delivers),
{
    match queue.claim_one() {
        None => Ok(ExecutionOutcome::EmptyQueue),
        Some(lease) => {
            let ghost pre = old(queue)@;
            let ghost i = first_unlocked(pre);
            proof {
                lemma_first_unlocked(pre);
            }
            if !validate_email(lease.subscriber_email.as_str()) {
                proof {
                    assert(queue@.remove(i) =~= pre.remove(i));
                }
                queue.delete_task(lease);
                Ok(ExecutionOutcome::TaskCompleted(DeliveryReport::SkippedInvalidEmail))
            } else {
                match issues.get_issue(lease.newsletter_issue_id) {
                    None => {
                        proof {
                            assert(queue@.update(i, unlocked_task(queue@[i])) =~= pre);
                        }
                        queue.abandon_task(lease);
                        Err(WorkerError::IssueNotFound)
                    },
                    Some(_issue) => {
                        // The send itself happens outside; only its outcome
                        // reaches the verified cycle.
                        proof {
                            assert(queue@.remove(i) =~= pre.remove(i));
                        }
                        queue.delete_task(lease);
                        if transport_delivers {
                            Ok(ExecutionOutcome::TaskCompleted(DeliveryReport::Delivered))
                        } else {
                            Ok(
                                ExecutionOutcome::TaskCompleted(
                                    DeliveryReport::SkippedTransportFailure,
                                ),
                            )
                        }
                    },
                }
            }
        },
    }
}

/// The loop's liveness guard: how long to sleep after a cycle. An empty
/// queue earns the long idle backoff, a storage-level error the short error
/// backoff, and a completed task none at all.
pub fn backoff_after(outcome: &Result<ExecutionOutcome, WorkerError>) -> (seconds: u64)
    ensures
        outcome matches Ok(ExecutionOutcome::EmptyQueue) ==> seconds == 10,
        outcome matches Ok(ExecutionOutcome::TaskCompleted(_)) ==> seconds == 0,
        outcome is Err ==> seconds == 1,
{
    match outcome {
        Ok(ExecutionOutcome::EmptyQueue) => 10,
        Ok(ExecutionOutcome::TaskCompleted(_)) => 0,
        Err(_) => 1,
    }
}

/// Law — the queue drains to empty: a worker looping over a queue of
/// claimable tasks whose issues exist removes one row per cycle until none
/// is left, whatever the transport answers and however malformed the stored
/// addresses are.
pub fn drain_queue(queue: &mut DeliveryQueue, issues: &IssueStore, transport_delivers: bool)
    requires
        issues.wf(),
        forall|j: int|
            0 <= j < old(queue)@.len() ==> !(#[trigger] old(queue)@[j]).locked
                && issues@.dom().contains(old(queue)@[j].issue_id),
    ensures
        final(queue)@.len() == 0,
{
    while queue.len() > 0
        invariant
            issues.wf(),
            forall|j: int|
                0 <= j < queue@.len() ==> !(#[trigger] queue@[j]).locked && issues@.dom().contains(
                    queue@[j].issue_id,
                ),
        decreases queue@.len(),
    {
        let ghost pre = queue@;
        proof {
            assert(has_unlocked(pre)) by {
                assert(!pre[0].locked);
            }
            lemma_first_unlocked(pre);
        }
        let outcome = try_execute_task(queue, issues, transport_delivers);
        proof {
            let i = first_unlocked(pre);
            assert(queue@ == pre.remove(i));
            assert(forall|j: int|
                0 <= j < queue@.len() ==> #[trigger] queue@[j] == (if j < i {
                    pre[j]
                } else {
                    pre[j + 1]
                }));
        }
    }
}

} // verus!
