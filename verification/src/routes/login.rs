//! The login page and the login flow's decisions.

use vstd::prelude::*;
use vstd::string::StringExecFns;
use crate::authentication::AuthError;
use crate::response::HttpResponseParts;
use crate::utils::{see_other, see_other_view};

verus! {

/// The login page's query string: an optional error to display.
#[derive(Debug)]
pub struct QueryParams {
    pub error: Option<String>,
}

/// The fragment the page shows for the error, if any.
pub open spec fn error_fragment_view(error: Option<Seq<char>>) -> Seq<char> {
    match error {
        Some(message) => "<p><i>"@ + message + "</i></p>"@,
        None => Seq::<char>::empty(),
    }
}

/// The part of the page before the error fragment.
pub open spec fn login_page_prefix() -> Seq<char> {
    "<!DOCTYPE html>\n<html lang=\"en\">\n<head>\n    <meta http-equiv=\"content-type\" content=\"text/html; charset=utf-8\">\n    <title>Login</title>\n</head>\n<body>\n    "@
}

/// The part of the page after the error fragment.
pub open spec fn login_page_suffix() -> Seq<char> {
    "\n    <form action=\"/login\" method=\"post\">\n        <label>Username\n            <input type=\"text\" placeholder=\"Enter Username\" name=\"username\">\n        </label>\n        <label>Password\n            <input type=\"password\" placeholder=\"Enter Password\" name=\"password\">\n        </label>\n        <button type=\"submit\">Login</button>\n    </form>\n</body>\n</html>"@
}

/// Renders the login page, with the error from the query string, when one is
/// there, shown above the form.
pub fn login_form(query: QueryParams) -> (page: String)
    ensures
        page@ == login_page_prefix() + error_fragment_view(
            match query.error {
                Some(message) => Some(message@),
                None => None,
            },
        ) + login_page_suffix(),
{
    let mut page = String::from_str(
        "<!DOCTYPE html>\n<html lang=\"en\">\n<head>\n    <meta http-equiv=\"content-type\" content=\"text/html; charset=utf-8\">\n    <title>Login</title>\n</head>\n<body>\n    ",
    );
    match &query.error {
        Some(message) => {
            page.append("<p><i>");
            page.append(message.as_str());
            page.append("</i></p>");
        },
        None => {},
    }
    page.append(
        "\n    <form action=\"/login\" method=\"post\">\n        <label>Username\n            <input type=\"text\" placeholder=\"Enter Username\" name=\"username\">\n        </label>\n        <label>Password\n            <input type=\"password\" placeholder=\"Enter Password\" name=\"password\">\n        </label>\n        <button type=\"submit\">Login</button>\n    </form>\n</body>\n</html>",
    );
    proof {
        assert(page@ =~= login_page_prefix() + error_fragment_view(
            match query.error {
                Some(message) => Some(message@),
                None => None,
            },
        ) + login_page_suffix());
    }
    page
}

/// The login form's fields.
#[derive(Debug)]
pub struct FormData {
    pub username: String,
    pub password: String,
}

/// Why a login failed: the credentials were wrong, or something else went
/// wrong along the way. The cause's text is kept for logging.
#[derive(Debug)]
pub enum LoginError {
    AuthError(String),
    UnexpectedError(String),
}

impl LoginError {
    /// The user-facing text of this error; what the flash message shows.
    pub fn message(&self) -> (r: &str)
        ensures
            self is AuthError ==> r@ == "Authentication failed"@,
            self is UnexpectedError ==> r@ == "Something went wrong"@,
    {
        match self {
            LoginError::AuthError(_) => "Authentication failed",
            LoginError::UnexpectedError(_) => "Something went wrong",
        }
    }

    /// The status the HTTP layer answers with: always a redirect.
    pub fn status_code(&self) -> (code: u16)
        ensures
            code == 303,
    {
        303
    }
}

/// A failed login is flashed and redirected back to the login form.
pub fn login_redirect(error: &LoginError) -> (r: (String, HttpResponseParts))
    ensures
        error is AuthError ==> r.0@ == "Authentication failed"@,
        error is UnexpectedError ==> r.0@ == "Something went wrong"@,
        r.1@ == see_other_view("/login"),
{
    let flash_message = error.message().to_owned();
    (flash_message, see_other("/login"))
}

/// Where a login attempt ends up.
#[derive(Debug)]
pub enum LoginOutcome {
    /// The credentials checked out and the session now carries the user: on
    /// to the dashboard.
    Success { user_id: u128, response: HttpResponseParts },
    /// The attempt failed: flash the error's text and return to the login
    /// form.
    Failure { error: LoginError, flash_message: String, response: HttpResponseParts },
}

/// Decides the login flow from the credential check's result and, when that
/// succeeded, from the outcome of storing the user in the renewed session.
/// Wrong credentials and session failures both end at the login form, under
/// their own error texts; only a stored session reaches the dashboard.
pub fn login(auth_result: Result<u128, AuthError>, session_insert: Result<(), String>) -> (r:
    LoginOutcome)
    ensures
        ({
            match auth_result {
                Ok(user_id) => match session_insert {
                    Ok(_) => r matches LoginOutcome::Success { user_id: uid, response }
                        && uid == user_id && response@ == see_other_view("/admin/dashboard"),
                    Err(cause) => r matches LoginOutcome::Failure { error, flash_message, response }
                        && (error matches LoginError::UnexpectedError(m) && m@ == cause@)
                        && flash_message@ == "Something went wrong"@ && response@
                        == see_other_view("/login"),
                },
                Err(AuthError::InvalidCredentials(cause)) => r matches LoginOutcome::Failure {
                    error,
                    flash_message,
                    response,
                } && (error matches LoginError::AuthError(m) && m@ == cause@) && flash_message@
                    == "Authentication failed"@ && response@ == see_other_view("/login"),
                Err(AuthError::UnexpectedError(cause)) => r matches LoginOutcome::Failure {
                    error,
                    flash_message,
                    response,
                } && (error matches LoginError::UnexpectedError(m) && m@ == cause@)
                    && flash_message@ == "Something went wrong"@ && response@ == see_other_view(
                    "/login",
                ),
            }
        }),
{
    match auth_result {
        Ok(user_id) => match session_insert {
            Ok(_) => LoginOutcome::Success { user_id, response: see_other("/admin/dashboard") },
            Err(cause) => {
                let error = LoginError::UnexpectedError(cause);
                let (flash_message, response) = login_redirect(&error);
                LoginOutcome::Failure { error, flash_message, response }
            },
        },
        Err(AuthError::InvalidCredentials(cause)) => {
            let error = LoginError::AuthError(cause);
            let (flash_message, response) = login_redirect(&error);
            LoginOutcome::Failure { error, flash_message, response }
        },
        Err(AuthError::UnexpectedError(cause)) => {
            let error = LoginError::UnexpectedError(cause);
            let (flash_message, response) = login_redirect(&error);
            LoginOutcome::Failure { error, flash_message, response }
        },
    }
}

} // verus!
