//! Publishing a newsletter issue: the idempotency check, the creation of the
//! issue, and the fan-out enqueue of one delivery task per confirmed
//! recipient, all inside one unit of work. A retried publish with the same
//! (owner, idempotency key) returns the cached response instead of
//! re-executing the side effect.

use vstd::prelude::*;
use vstd::string::StringExecFns;
use crate::domain::{is_valid_email, SubscriberEmail};
use crate::idempotency::{
    lookup_result, saved_table, IdempotencyKey, IdempotencyStore,
};
use crate::issues::{IssueStore, IssueView, NewsletterIssue};
use crate::queue::{fanout_views, DeliveryQueue};
use crate::response::{ok_response, HeaderView, HttpResponseParts, ResponseView};

verus! {

/// The body of a publish request.
#[derive(Debug)]
pub struct BodyData {
    pub title: String,
    pub content: Content,
}

/// The issue content in both renderings.
#[derive(Debug)]
pub struct Content {
    pub html: String,
    pub text: String,
}

/// The issue a publish request authors.
pub open spec fn issue_of_body(body: BodyData) -> IssueView {
    IssueView {
        title: body.title@,
        text_content: body.content.text@,
        html_content: body.content.html@,
    }
}

/// The response a fresh publish produces: an empty 200.
pub open spec fn published_response() -> ResponseView {
    ResponseView { status: 200, headers: Seq::<HeaderView>::empty(), body: Seq::<u8>::empty() }
}

/// Why a publish failed. Genuine storage errors propagate upward as an
/// opaque failure; nothing was cached, so the caller should retry the whole
/// request.
#[derive(Debug)]
pub enum PublishError {
    UnexpectedError(String),
}

impl PublishError {
    /// The status the HTTP layer answers with for this error.
    pub fn status_code(&self) -> (code: u16)
        ensures
            code == 500,
    {
        match self {
            PublishError::UnexpectedError(_) => 500,
        }
    }

    /// The error's text.
    pub fn message(&self) -> (r: &str)
        ensures
            self matches PublishError::UnexpectedError(m) && r@ == m@,
    {
        match self {
            PublishError::UnexpectedError(m) => m.as_str(),
        }
    }
}

/// A subscriber confirmed for delivery.
#[derive(Debug)]
pub struct ConfirmedSubscriber {
    pub email: SubscriberEmail,
}

/// Validates the stored addresses of the confirmed subscribers. Succeeds
/// exactly when every address is valid, keeping them in order; otherwise
/// reports the first invalid address.
pub fn get_confirmed_subscribers(rows: &Vec<String>) -> (r: Result<Vec<ConfirmedSubscriber>, String>)
    ensures
        r is Ok <==> (forall|i: int| 0 <= i < rows@.len() ==> is_valid_email((#[trigger] rows@[i])@)),
        r matches Ok(subs) ==> subs@.len() == rows@.len() && (forall|i: int|
            0 <= i < rows@.len() ==> subs@[i].email@ == (#[trigger] rows@[i])@),
        r matches Err(msg) ==> exists|k: int|
            0 <= k < rows@.len() && !is_valid_email((#[trigger] rows@[k])@) && (forall|j: int|
                0 <= j < k ==> is_valid_email((#[trigger] rows@[j])@)) && msg@ == rows@[k]@
                + " is not a valid subscriber email."@,
{
    let mut subs: Vec<ConfirmedSubscriber> = Vec::new();
    let mut i: usize = 0;
    while i < rows.len()
        invariant
            i <= rows@.len(),
            subs@.len() == i,
            forall|j: int|
                0 <= j < i ==> is_valid_email((#[trigger] rows@[j])@) && subs@[j].email@
                    == rows@[j]@,
        decreases rows@.len() - i,
    {
        match SubscriberEmail::parse(rows[i].clone()) {
            Ok(email) => {
                subs.push(ConfirmedSubscriber { email });
            },
            Err(msg) => {
                proof {
                    assert(!is_valid_email(rows@[i as int]@));
                }
                return Err(msg);
            },
        }
        i = i + 1;
    }
    Ok(subs)
}

/// Relies on uuid's `Uuid::new_v4` and `Uuid::as_u128`: a freshly drawn
/// random identifier for a new issue. Nothing is promised of the value; a
/// collision surfaces as a refused insert and is handled by the caller.
#[verifier::external_body]
fn new_issue_id() -> u128 {
    uuid::Uuid::new_v4().as_u128()
}

/// Publishes an issue under a caller-chosen id. The idempotency lookup comes
/// first: a hit returns the cached response and touches nothing. On a miss,
/// the issue is created, one delivery task per recipient is enqueued, and the
/// empty-200 response is cached under the key — atomically, as one unit of
/// work over the combined state. A taken id is refused with everything left
/// unchanged.
pub fn publish_newsletter_with_id(
    store: &mut IdempotencyStore,
    issues: &mut IssueStore,
    queue: &mut DeliveryQueue,
    user_id: u128,
    idempotency_key: &IdempotencyKey,
    newsletter_issue_id: u128,
    body: BodyData,
    recipients: &Vec<String>,
) -> (r: Result<HttpResponseParts, PublishError>)
    requires
        old(store).wf(),
        old(issues).wf(),
    ensures
        final(store).wf(),
        final(issues).wf(),
        ({
            let key = (user_id, idempotency_key@);
            match lookup_result(old(store)@, key) {
                Some(cached) => {
                    &&& r matches Ok(resp) && resp@ == cached
                    &&& final(store)@ == old(store)@
                    &&& final(issues)@ == old(issues)@
                    &&& final(queue)@ == old(queue)@
                },
                None => {
                    if old(issues)@.dom().contains(newsletter_issue_id) {
                        &&& r matches Err(e) && (e matches PublishError::UnexpectedError(m)
                            && m@ == "Failed to store the newsletter issue."@)
                        &&& final(store)@ == old(store)@
                        &&& final(issues)@ == old(issues)@
                        &&& final(queue)@ == old(queue)@
                    } else {
                        &&& r matches Ok(resp) && resp@ == published_response()
                        &&& final(issues)@ == old(issues)@.insert(
                            newsletter_issue_id,
                            issue_of_body(body),
                        )
                        &&& final(queue)@ == old(queue)@ + fanout_views(
                            newsletter_issue_id,
                            recipients@,
                        )
                        &&& final(store)@ == saved_table(old(store)@, key, published_response())
                    }
                },
            }
        }),
{
    match store.get_saved_response(user_id, idempotency_key) {
        Some(saved) => Ok(saved),
        None => {
            let issue = NewsletterIssue {
                title: body.title,
                text_content: body.content.text,
                html_content: body.content.html,
            };
            match issues.insert_issue(newsletter_issue_id, issue) {
                Err(_) => Err(
                    PublishError::UnexpectedError(
                        String::from_str("Failed to store the newsletter issue."),
                    ),
                ),
                Ok(_) => {
                    queue.enqueue_fanout(newsletter_issue_id, recipients);
                    let response = ok_response();
                    proof {
                        assert(response@ =~= published_response());
                    }
                    match store.save_response(user_id, idempotency_key, response) {
                        Ok(returned) => Ok(returned),
                        Err(_) => {
                            // The key was absent at lookup and nothing else
                            // wrote between: the save cannot be refused.
                            proof {
                                assert(false);
                            }
                            Err(
                                PublishError::UnexpectedError(
                                    String::from_str("Failed to store the newsletter issue."),
                                ),
                            )
                        },
                    }
                },
            }
        },
    }
}

/// Publishes an issue under a freshly drawn random id: the publish endpoint's
/// whole flow. Whatever id the draw produced, either the publish went through
/// under some previously unused id, or the draw collided and everything is
/// unchanged; a retried request with the same key gets the cached response.
pub fn publish_newsletter(
    store: &mut IdempotencyStore,
    issues: &mut IssueStore,
    queue: &mut DeliveryQueue,
    user_id: u128,
    idempotency_key: &IdempotencyKey,
    body: BodyData,
    recipients: &Vec<String>,
) -> (r: Result<HttpResponseParts, PublishError>)
    requires
        old(store).wf(),
        old(issues).wf(),
    ensures
        final(store).wf(),
        final(issues).wf(),
        ({
            let key = (user_id, idempotency_key@);
            match lookup_result(old(store)@, key) {
                Some(cached) => {
                    &&& r matches Ok(resp) && resp@ == cached
                    &&& final(store)@ == old(store)@
                    &&& final(issues)@ == old(issues)@
                    &&& final(queue)@ == old(queue)@
                },
                None => match r {
                    Ok(resp) => exists|id: u128|
                        {
                            &&& !(#[trigger] old(issues)@.dom().contains(id))
                            &&& final(issues)@ == old(issues)@.insert(id, issue_of_body(body))
                            &&& final(queue)@ == old(queue)@ + fanout_views(id, recipients@)
                            &&& final(store)@ == saved_table(
                                old(store)@,
                                key,
                                published_response(),
                            )
                            &&& resp@ == published_response()
                        },
                    Err(e) => {
                        &&& e matches PublishError::UnexpectedError(m) && m@
                            == "Failed to store the newsletter issue."@
                        &&& final(store)@ == old(store)@
                        &&& final(issues)@ == old(issues)@
                        &&& final(queue)@ == old(queue)@
                    },
                },
            }
        }),
{
    let newsletter_issue_id = new_issue_id();
    publish_newsletter_with_id(
        store,
        issues,
        queue,
        user_id,
        idempotency_key,
        newsletter_issue_id,
        body,
        recipients,
    )
}

} // verus!
