//! The subscription flow's decisions and content: validating a submitted
//! form into a subscriber, drawing the confirmation token, composing the
//! confirmation email, and the exact error each step of the flow reports.
//! The storage and network steps themselves run in the surrounding binary.

use vstd::prelude::*;
use vstd::string::StringExecFns;
use rand::Rng;
use crate::domain::{
    is_valid_email, is_valid_name, NewSubscriber, SubscriberEmail, SubscriberName,
};

verus! {

/// The subscription form as the HTTP layer hands it over.
#[derive(Debug)]
pub struct FormData {
    pub email: String,
    pub name: String,
}

/// Validates a submitted form into a subscriber: the name first, then the
/// email, reporting the first field that fails.
pub fn parse_subscriber(form: FormData) -> (r: Result<NewSubscriber, String>)
    ensures
        r is Ok <==> is_valid_name(form.name@) && is_valid_email(form.email@),
        r matches Ok(s) ==> s.name@ == form.name@ && s.email@ == form.email@,
        r matches Err(m) ==> (if !is_valid_name(form.name@) {
            m@ == form.name@ + " is not a valid subscriber name."@
        } else {
            m@ == form.email@ + " is not a valid subscriber email."@
        }),
{
    let name = match SubscriberName::parse(form.name) {
        Ok(name) => name,
        Err(m) => {
            return Err(m);
        },
    };
    let email = match SubscriberEmail::parse(form.email) {
        Ok(email) => email,
        Err(m) => {
            return Err(m);
        },
    };
    Ok(NewSubscriber { email, name })
}

/// Why a subscription request failed: the submitted data was invalid, or one
/// of the flow's storage or delivery steps failed (kept as the step's context
/// and the underlying cause's text).
#[derive(Debug)]
pub enum SubscribeError {
    ValidationError(String),
    UnexpectedError(String, String),
}

impl SubscribeError {
    /// The status the HTTP layer answers with for this error.
    pub fn status_code(&self) -> (code: u16)
        ensures
            self is ValidationError ==> code == 400,
            self is UnexpectedError ==> code == 500,
    {
        match self {
            SubscribeError::ValidationError(_) => 400,
            SubscribeError::UnexpectedError(_, _) => 500,
        }
    }

    /// The error's user-facing text: the validation message, or the failing
    /// step's context.
    pub fn message(&self) -> (r: &str)
        ensures
            self matches SubscribeError::ValidationError(m) ==> r@ == m@,
            self matches SubscribeError::UnexpectedError(_, context) ==> r@ == context@,
    {
        match self {
            SubscribeError::ValidationError(m) => m.as_str(),
            SubscribeError::UnexpectedError(_, context) => context.as_str(),
        }
    }
}

/// A step of the subscription flow that can fail against the outside world.
#[derive(Clone, Copy, Debug, PartialEq, Eq, Structural)]
pub enum SubscribeStep {
    AcquirePool,
    InsertSubscriber,
    StoreToken,
    Commit,
    SendEmail,
}

/// The context each failing step reports.
pub open spec fn step_context(step: SubscribeStep) -> Seq<char> {
    match step {
        SubscribeStep::AcquirePool => "Failed to acquire a Postgres connection from the pool"@,
        SubscribeStep::InsertSubscriber => "Failed to insert new subscriber in the database."@,
        SubscribeStep::StoreToken => "Failed to store the confirmation token for a new subscriber."@,
        SubscribeStep::Commit => "Failed to commit SQL transaction to store a new subscriber."@,
        SubscribeStep::SendEmail => "Failed to send a confirmation email."@,
    }
}

/// Wraps a step's underlying failure into the error the flow reports: the
/// cause's text alongside the step's fixed context.
pub fn subscribe_failure(step: SubscribeStep, source: String) -> (e: SubscribeError)
    ensures
        e matches SubscribeError::UnexpectedError(src, context) && src@ == source@ && context@
            == step_context(step),
{
    let context = match step {
        SubscribeStep::AcquirePool => String::from_str(
            "Failed to acquire a Postgres connection from the pool",
        ),
        SubscribeStep::InsertSubscriber => String::from_str(
            "Failed to insert new subscriber in the database.",
        ),
        SubscribeStep::StoreToken => String::from_str(
            "Failed to store the confirmation token for a new subscriber.",
        ),
        SubscribeStep::Commit => String::from_str(
            "Failed to commit SQL transaction to store a new subscriber.",
        ),
        SubscribeStep::SendEmail => String::from_str("Failed to send a confirmation email."),
    };
    SubscribeError::UnexpectedError(source, context)
}

/// A database failure while storing a subscription token; the cause's text
/// is kept as the error's source.
#[derive(Debug)]
pub struct StoreTokenError(pub String);

impl StoreTokenError {
    /// The error's own text.
    pub fn message(&self) -> (r: &str)
        ensures
            r@ == "A database error was encountered while trying to store a subscription token."@,
    {
        "A database error was encountered while trying to store a subscription token."
    }

    /// The underlying cause's text.
    pub fn source_message(&self) -> (r: &str)
        ensures
            r@ == self.0@,
    {
        self.0.as_str()
    }
}

/// An ASCII letter or digit.
pub open spec fn is_ascii_alphanumeric_char(c: char) -> bool {
    ('a' <= c && c <= 'z') || ('A' <= c && c <= 'Z') || ('0' <= c && c <= '9')
}

/// Relies on rand's `Alphanumeric` distribution, sampled through
/// `rand::Rng::sample` on the thread-local generator: every draw is one of
/// the 62 ASCII letters and digits. Nothing else is promised of a random
/// draw.
#[verifier::external_body]
fn sample_alphanumeric() -> (c: char)
    ensures
        is_ascii_alphanumeric_char(c),
{
    char::from(rand::thread_rng().sample(rand::distributions::Alphanumeric))
}

/// Relies on std's `String::push`: appends exactly the given character.
#[verifier::external_body]
fn push_char(s: &mut String, c: char)
    ensures
        final(s)@ == old(s)@ + seq![c],
{
    s.push(c);
}

/// Draws a fresh 25-character confirmation token of ASCII letters and
/// digits.
pub fn ganerate_subscription_token() -> (t: String)
    ensures
        t@.len() == 25,
        forall|i: int| 0 <= i < t@.len() ==> is_ascii_alphanumeric_char(#[trigger] t@[i]),
{
    let mut t = String::new();
    let mut i: usize = 0;
    while i < 25
        invariant
            i <= 25,
            t@.len() == i,
            forall|j: int| 0 <= j < i ==> is_ascii_alphanumeric_char(#[trigger] t@[j]),
        decreases 25 - i,
    {
        let c = sample_alphanumeric();
        push_char(&mut t, c);
        i = i + 1;
    }
    t
}

/// The confirmation email for a new subscriber, fully composed.
#[derive(Debug)]
pub struct ConfirmationEmail {
    pub subject: String,
    pub confirmation_link: String,
    pub html_body: String,
    pub text_body: String,
}

/// Composes the confirmation email around the link built from the
/// application's base address and the subscriber's token.
pub fn confirmation_email_content(base_url: &str, subscription_token: &str) -> (r:
    ConfirmationEmail)
    ensures
        r.confirmation_link@ == base_url@ + "/subscriptions/confirm?subscription_token="@
            + subscription_token@,
        r.subject@ == "Welcome!"@,
        r.html_body@ == "Welcome to our newsletter!<br />Click <a href=\""@
            + r.confirmation_link@ + "\">here</a> to confirm your subscription."@,
        r.text_body@ == "Welcome to our newsletter!\nVisit "@ + r.confirmation_link@
            + " to confirm your subscription."@,
{
    let mut confirmation_link = base_url.to_owned();
    confirmation_link.append("/subscriptions/confirm?subscription_token=");
    confirmation_link.append(subscription_token);

    let mut html_body = String::from_str("Welcome to our newsletter!<br />Click <a href=\"");
    html_body.append(confirmation_link.as_str());
    html_body.append("\">here</a> to confirm your subscription.");

    let mut text_body = String::from_str("Welcome to our newsletter!\nVisit ");
    text_body.append(confirmation_link.as_str());
    text_body.append(" to confirm your subscription.");

    ConfirmationEmail {
        subject: String::from_str("Welcome!"),
        confirmation_link,
        html_body,
        text_body,
    }
}

} // verus!
