use zero_to_prod::queue::DeliveryQueue;

fn queue_with(recipients: &[&str]) -> DeliveryQueue {
    let mut queue = DeliveryQueue::new();
    let recipients: Vec<String> = recipients.iter().map(|r| String::from(*r)).collect();
    queue.enqueue_fanout(42, &recipients);
    queue
}

#[test]
fn enqueue_fanout_inserts_one_unlocked_row_per_recipient() {
    let queue = queue_with(&["a@x.io", "b@x.io", "c@x.io"]);
    assert_eq!(queue.len(), 3);
    for i in 0..3 {
        assert_eq!(queue.get(i).newsletter_issue_id(), 42);
        assert!(!queue.get(i).is_locked());
    }
    assert_eq!(queue.get(0).subscriber_email(), "a@x.io");
    assert_eq!(queue.get(1).subscriber_email(), "b@x.io");
    assert_eq!(queue.get(2).subscriber_email(), "c@x.io");
}

#[test]
fn concurrent_claims_receive_disjoint_rows() {
    let mut queue = queue_with(&["a@x.io", "b@x.io"]);
    let first = queue.claim_one().expect("a row is pending");
    let second = queue.claim_one().expect("another row is pending");
    assert_ne!(first.row_index, second.row_index);
    assert_ne!(first.subscriber_email, second.subscriber_email);
}

#[test]
fn with_one_pending_row_only_one_claim_succeeds() {
    let mut queue = queue_with(&["only@x.io"]);
    let winner = queue.claim_one();
    assert!(winner.is_some());
    let loser = queue.claim_one();
    assert!(loser.is_none());
    // The refused claim left the queue untouched.
    assert_eq!(queue.len(), 1);
}

#[test]
fn delete_task_removes_the_claimed_row() {
    let mut queue = queue_with(&["a@x.io", "b@x.io"]);
    let lease = queue.claim_one().expect("a row is pending");
    let claimed_email = lease.subscriber_email.clone();
    queue.delete_task(lease);
    assert_eq!(queue.len(), 1);
    assert_ne!(queue.get(0).subscriber_email(), claimed_email.as_str());
}

#[test]
fn an_abandoned_claim_leaves_the_row_claimable() {
    let mut queue = queue_with(&["only@x.io"]);
    let lease = queue.claim_one().expect("a row is pending");

    // The worker dies before finalizing: the transaction never commits and
    // the lock is dropped.
    queue.abandon_task(lease);

    assert_eq!(queue.len(), 1);
    assert!(!queue.get(0).is_locked());
    let retry = queue.claim_one().expect("the row must be claimable again");
    assert_eq!(retry.subscriber_email, "only@x.io");
    assert_eq!(retry.newsletter_issue_id, 42);
}
