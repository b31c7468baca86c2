//! The decision logic of the session-facing routes: the login form and flow,
//! and the password change. The session store, the credential check and the
//! flash-message cookie live in the surrounding binary; every branch taken on
//! their results is decided here.

pub mod login;
pub mod password;
