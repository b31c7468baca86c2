//! The password-change flow's decisions, and the guard that turns an
//! anonymous session away.

use vstd::prelude::*;
use crate::authentication::AuthError;
use crate::response::HttpResponseParts;
use crate::utils::{see_other, see_other_view};

verus! {

/// The password-change form's fields.
#[derive(Debug)]
pub struct FormData {
    pub current_password: String,
    pub new_password: String,
    pub new_password_check: String,
}

/// Whether the two new-password fields agree; checked before any credential
/// check is attempted.
pub fn passwords_match(form: &FormData) -> (b: bool)
    ensures
        b == (form.new_password@ == form.new_password_check@),
{
    form.new_password.eq(&form.new_password_check)
}

/// Where a password-change attempt ends up.
#[derive(Debug)]
pub enum ChangePasswordOutcome {
    /// The two new-password fields differ; nothing was checked or changed.
    FieldsMismatch,
    /// The current password failed the credential check.
    CurrentPasswordIncorrect,
    /// The credential check itself failed; the cause's text is kept.
    UnexpectedFailure(String),
    /// The current password checked out; the new password is to be stored.
    Changed,
}

impl ChangePasswordOutcome {
    /// The flash message shown for this outcome; an unexpected failure shows
    /// none and answers with an opaque 500 instead.
    pub fn flash_message(&self) -> (r: Option<&str>)
        ensures
            self is FieldsMismatch ==> (r matches Some(m) && m@
                == "You entered two different new passwords - the field values must match."@),
            self is CurrentPasswordIncorrect ==> (r matches Some(m) && m@
                == "The current password is incorrect."@),
            self is Changed ==> (r matches Some(m) && m@ == "Your password has been changed."@),
            self is UnexpectedFailure ==> r is None,
    {
        match self {
            ChangePasswordOutcome::FieldsMismatch => Some(
                "You entered two different new passwords - the field values must match.",
            ),
            ChangePasswordOutcome::CurrentPasswordIncorrect => Some(
                "The current password is incorrect.",
            ),
            ChangePasswordOutcome::Changed => Some("Your password has been changed."),
            ChangePasswordOutcome::UnexpectedFailure(_) => None,
        }
    }
}

/// Decides the password-change flow. Mismatched new-password fields end it
/// before any credential check; otherwise the current password's check
/// settles it: wrong credentials flash and redirect, a failed check is an
/// opaque failure, and a passed check lets the change proceed.
pub fn change_password(form: &FormData, credentials_check: &Result<(), AuthError>) -> (r:
    ChangePasswordOutcome)
    ensures
        form.new_password@ != form.new_password_check@ ==> r is FieldsMismatch,
        form.new_password@ == form.new_password_check@ ==> match credentials_check {
            Ok(_) => r is Changed,
            Err(AuthError::InvalidCredentials(_)) => r is CurrentPasswordIncorrect,
            Err(AuthError::UnexpectedError(cause)) => r matches
                ChangePasswordOutcome::UnexpectedFailure(m) && m@ == cause@,
        },
{
    if !passwords_match(form) {
        return ChangePasswordOutcome::FieldsMismatch;
    }
    match credentials_check {
        Ok(_) => ChangePasswordOutcome::Changed,
        Err(AuthError::InvalidCredentials(_)) => ChangePasswordOutcome::CurrentPasswordIncorrect,
        Err(AuthError::UnexpectedError(cause)) => ChangePasswordOutcome::UnexpectedFailure(
            cause.clone(),
        ),
    }
}

/// Only a session that carries a user id may reach the admin routes; an
/// anonymous one is sent to the login form.
pub fn reject_anonymous_users(session_user_id: Option<u128>) -> (r: Result<
    u128,
    HttpResponseParts,
>)
    ensures
        session_user_id matches Some(user_id) ==> (r matches Ok(uid) && uid == user_id),
        session_user_id is None ==> (r matches Err(response) && response@ == see_other_view(
            "/login",
        )),
{
    match session_user_id {
        Some(user_id) => Ok(user_id),
        None => Err(see_other("/login")),
    }
}

} // verus!
