use zero_to_prod::issues::{IssueStore, NewsletterIssue};
use zero_to_prod::queue::DeliveryQueue;
use zero_to_prod::worker::{
    backoff_after, drain_queue, try_execute_task, DeliveryReport, ExecutionOutcome, WorkerError,
};

fn issue_store_with(id: u128) -> IssueStore {
    let mut issues = IssueStore::new();
    issues
        .insert_issue(
            id,
            NewsletterIssue {
                title: String::from("Newsletter title"),
                text_content: String::from("Newsletter body as plain text"),
                html_content: String::from("<p>Newsletter body as HTML</p>"),
            },
        )
        .expect("the id is fresh");
    issues
}

fn queue_with(issue_id: u128, recipients: &[&str]) -> DeliveryQueue {
    let mut queue = DeliveryQueue::new();
    let recipients: Vec<String> = recipients.iter().map(|r| String::from(*r)).collect();
    queue.enqueue_fanout(issue_id, &recipients);
    queue
}

#[test]
fn a_malformed_recipient_is_removed_without_a_send() {
    let issues = issue_store_with(42);
    let mut queue = queue_with(42, &["not-an-email"]);

    let outcome = try_execute_task(&mut queue, &issues, true).expect("the cycle completes");
    assert_eq!(
        outcome,
        ExecutionOutcome::TaskCompleted(DeliveryReport::SkippedInvalidEmail)
    );
    assert_eq!(queue.len(), 0);
}

#[test]
fn a_malformed_recipient_outcome_ignores_the_transport() {
    let issues = issue_store_with(42);
    // Whether the transport would deliver or not, no send is attempted and
    // the row is dropped either way.
    for transport_delivers in [true, false] {
        let mut queue = queue_with(42, &["not-an-email"]);
        let outcome =
            try_execute_task(&mut queue, &issues, transport_delivers).expect("the cycle completes");
        assert_eq!(
            outcome,
            ExecutionOutcome::TaskCompleted(DeliveryReport::SkippedInvalidEmail)
        );
        assert_eq!(queue.len(), 0);
    }
}

#[test]
fn a_delivered_task_is_removed() {
    let issues = issue_store_with(42);
    let mut queue = queue_with(42, &["ursula_le_guin@gmail.com"]);
    let outcome = try_execute_task(&mut queue, &issues, true).expect("the cycle completes");
    assert_eq!(outcome, ExecutionOutcome::TaskCompleted(DeliveryReport::Delivered));
    assert_eq!(queue.len(), 0);
}

#[test]
fn a_transport_failure_is_logged_and_the_row_still_removed() {
    let issues = issue_store_with(42);
    let mut queue = queue_with(42, &["ursula_le_guin@gmail.com"]);
    let outcome = try_execute_task(&mut queue, &issues, false).expect("the cycle completes");
    assert_eq!(
        outcome,
        ExecutionOutcome::TaskCompleted(DeliveryReport::SkippedTransportFailure)
    );
    assert_eq!(queue.len(), 0);
}

#[test]
fn an_empty_queue_reports_empty_and_changes_nothing() {
    let issues = issue_store_with(42);
    let mut queue = DeliveryQueue::new();
    let outcome = try_execute_task(&mut queue, &issues, true).expect("the cycle completes");
    assert_eq!(outcome, ExecutionOutcome::EmptyQueue);
    assert_eq!(queue.len(), 0);
}

#[test]
fn a_missing_issue_releases_the_claim() {
    let issues = IssueStore::new();
    let mut queue = queue_with(42, &["ursula_le_guin@gmail.com"]);
    let err = try_execute_task(&mut queue, &issues, true).unwrap_err();
    assert_eq!(err, WorkerError::IssueNotFound);
    // The row is still present and claimable again.
    assert_eq!(queue.len(), 1);
    assert!(!queue.get(0).is_locked());
}

#[test]
fn backoff_is_long_when_idle_short_on_error_none_after_work() {
    assert_eq!(backoff_after(&Ok(ExecutionOutcome::EmptyQueue)), 10);
    assert_eq!(backoff_after(&Err(WorkerError::IssueNotFound)), 1);
    assert_eq!(
        backoff_after(&Ok(ExecutionOutcome::TaskCompleted(DeliveryReport::Delivered))),
        0
    );
}

#[test]
fn the_queue_drains_to_empty() {
    let issues = issue_store_with(42);
    let mut queue = queue_with(
        42,
        &[
            "a@x.io",
            "not-an-email",
            "b@x.io",
            "also not an email",
            "c@x.io",
        ],
    );
    drain_queue(&mut queue, &issues, true);
    assert_eq!(queue.len(), 0);
}

#[test]
fn the_queue_drains_even_when_the_transport_keeps_failing() {
    let issues = issue_store_with(42);
    let mut queue = queue_with(42, &["a@x.io", "b@x.io", "c@x.io"]);
    drain_queue(&mut queue, &issues, false);
    assert_eq!(queue.len(), 0);
}
