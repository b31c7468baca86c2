use zero_to_prod::authentication::AuthError;
use zero_to_prod::report::{error_chain_fmt, report_exit, LogLevel};
use zero_to_prod::routes::login::{login, login_form, LoginError, LoginOutcome, QueryParams};
use zero_to_prod::routes::password::{
    change_password, passwords_match, reject_anonymous_users, ChangePasswordOutcome,
    FormData as PasswordFormData,
};
use zero_to_prod::subscriptions::{
    confirmation_email_content, ganerate_subscription_token, subscribe_failure, StoreTokenError,
    SubscribeError, SubscribeStep,
};

#[test]
fn the_subscription_token_is_25_alphanumeric_characters() {
    let token = ganerate_subscription_token();
    assert_eq!(token.chars().count(), 25);
    assert!(token.chars().all(|c| c.is_ascii_alphanumeric()));
}

#[test]
fn the_confirmation_email_is_built_around_the_link() {
    let content = confirmation_email_content("https://example.org", "tok25");
    assert_eq!(
        content.confirmation_link,
        "https://example.org/subscriptions/confirm?subscription_token=tok25"
    );
    assert_eq!(content.subject, "Welcome!");
    assert_eq!(
        content.html_body,
        "Welcome to our newsletter!<br />Click <a href=\"https://example.org/subscriptions/confirm?subscription_token=tok25\">here</a> to confirm your subscription."
    );
    assert_eq!(
        content.text_body,
        "Welcome to our newsletter!\nVisit https://example.org/subscriptions/confirm?subscription_token=tok25 to confirm your subscription."
    );
}

#[test]
fn each_subscription_step_reports_its_own_context() {
    let cases = [
        (SubscribeStep::AcquirePool, "Failed to acquire a Postgres connection from the pool"),
        (SubscribeStep::InsertSubscriber, "Failed to insert new subscriber in the database."),
        (SubscribeStep::StoreToken, "Failed to store the confirmation token for a new subscriber."),
        (SubscribeStep::Commit, "Failed to commit SQL transaction to store a new subscriber."),
        (SubscribeStep::SendEmail, "Failed to send a confirmation email."),
    ];
    for (step, context) in cases {
        let e = subscribe_failure(step, String::from("connection reset"));
        assert_eq!(e.status_code(), 500);
        assert_eq!(e.message(), context);
    }
}

#[test]
fn subscribe_errors_carry_their_status_codes() {
    let validation = SubscribeError::ValidationError(String::from("empty name"));
    assert_eq!(validation.status_code(), 400);
    assert_eq!(validation.message(), "empty name");
}

#[test]
fn the_store_token_error_keeps_its_source() {
    let e = StoreTokenError(String::from("unique violation"));
    assert_eq!(
        e.message(),
        "A database error was encountered while trying to store a subscription token."
    );
    assert_eq!(e.source_message(), "unique violation");
}

#[test]
fn the_error_chain_is_rendered_outermost_first() {
    let causes = vec![String::from("pool timed out"), String::from("socket closed")];
    let rendered = error_chain_fmt("Failed to publish", &causes);
    assert_eq!(
        rendered,
        "Failed to publish\n\nCaused by: pool timed out\nCaused by: socket closed\n"
    );
}

#[test]
fn task_exits_are_reported_by_severity() {
    let clean: Result<Result<(), String>, String> = Ok(Ok(()));
    assert_eq!(report_exit("API", &clean), (LogLevel::Info, String::from("API has exited")));

    let failed: Result<Result<(), String>, String> = Ok(Err(String::from("bind refused")));
    assert_eq!(
        report_exit("API", &failed),
        (LogLevel::Error, String::from("API failed"))
    );

    let join_failed: Result<Result<(), String>, String> = Err(String::from("panicked"));
    assert_eq!(
        report_exit("Background worker", &join_failed),
        (LogLevel::Error, String::from("Background worker' task failed to complete"))
    );
}

#[test]
fn the_login_page_shows_the_flashed_error() {
    let page = login_form(QueryParams { error: Some(String::from("Authentication failed")) });
    assert!(page.contains("<p><i>Authentication failed</i></p>"));
    assert!(page.contains("<form action=\"/login\" method=\"post\">"));

    let plain = login_form(QueryParams { error: None });
    assert!(!plain.contains("<p><i>"));
}

#[test]
fn a_failed_login_is_flashed_and_redirected() {
    let outcome = login(
        Err(AuthError::InvalidCredentials(String::from("unknown username"))),
        Ok(()),
    );
    match outcome {
        LoginOutcome::Failure { error, flash_message, response } => {
            assert_eq!(flash_message, "Authentication failed");
            assert_eq!(error.status_code(), 303);
            assert_eq!(error.message(), "Authentication failed");
            assert_eq!(response.status_code, 303);
            assert_eq!(response.headers[0].name, "location");
            assert_eq!(response.headers[0].value, b"/login".to_vec());
        }
        LoginOutcome::Success { .. } => panic!("wrong credentials must not log in"),
    }
}

#[test]
fn a_successful_login_lands_on_the_dashboard() {
    let outcome = login(Ok(99), Ok(()));
    match outcome {
        LoginOutcome::Success { user_id, response } => {
            assert_eq!(user_id, 99);
            assert_eq!(response.status_code, 303);
            assert_eq!(response.headers[0].value, b"/admin/dashboard".to_vec());
        }
        LoginOutcome::Failure { .. } => panic!("valid credentials must log in"),
    }
}

#[test]
fn a_session_failure_after_login_redirects_with_the_generic_message() {
    let outcome = login(Ok(99), Err(String::from("session store unreachable")));
    match outcome {
        LoginOutcome::Failure { error, flash_message, .. } => {
            assert_eq!(flash_message, "Something went wrong");
            assert!(matches!(error, LoginError::UnexpectedError(_)));
        }
        LoginOutcome::Success { .. } => panic!("a lost session must not count as logged in"),
    }
}

fn password_form(new: &str, check: &str) -> PasswordFormData {
    PasswordFormData {
        current_password: String::from("hunter2hunter2"),
        new_password: String::from(new),
        new_password_check: String::from(check),
    }
}

#[test]
fn mismatched_new_passwords_end_the_change_before_any_check() {
    let form = password_form("one-password", "another-password");
    assert!(!passwords_match(&form));
    let outcome = change_password(&form, &Ok(()));
    assert!(matches!(outcome, ChangePasswordOutcome::FieldsMismatch));
    assert_eq!(
        outcome.flash_message(),
        Some("You entered two different new passwords - the field values must match.")
    );
}

#[test]
fn a_wrong_current_password_is_flashed() {
    let form = password_form("new-password-12", "new-password-12");
    let outcome = change_password(
        &form,
        &Err(AuthError::InvalidCredentials(String::from("wrong password"))),
    );
    assert!(matches!(outcome, ChangePasswordOutcome::CurrentPasswordIncorrect));
    assert_eq!(outcome.flash_message(), Some("The current password is incorrect."));
}

#[test]
fn a_verified_current_password_lets_the_change_proceed() {
    let form = password_form("new-password-12", "new-password-12");
    let outcome = change_password(&form, &Ok(()));
    assert!(matches!(outcome, ChangePasswordOutcome::Changed));
    assert_eq!(outcome.flash_message(), Some("Your password has been changed."));
}

#[test]
fn a_failed_credential_check_is_an_opaque_failure() {
    let form = password_form("new-password-12", "new-password-12");
    let outcome = change_password(
        &form,
        &Err(AuthError::UnexpectedError(String::from("pool gone"))),
    );
    match &outcome {
        ChangePasswordOutcome::UnexpectedFailure(cause) => assert_eq!(cause, "pool gone"),
        _ => panic!("a failed check must be opaque"),
    }
    assert_eq!(outcome.flash_message(), None);
}

#[test]
fn anonymous_sessions_are_sent_to_the_login_form() {
    assert_eq!(reject_anonymous_users(Some(7)).unwrap(), 7);
    let response = reject_anonymous_users(None).unwrap_err();
    assert_eq!(response.status_code, 303);
    assert_eq!(response.headers[0].value, b"/login".to_vec());
}
