//! Credential-check results, as the login and password flows consume them.
//! The check itself (hash comparison against the user table) runs in the
//! surrounding binary; the verified decisions branch only on its result.

use vstd::prelude::*;

verus! {

/// How a credential check failed: the credentials were wrong, or the check
/// itself could not be carried out. Each variant keeps the cause's text.
#[derive(Debug)]
pub enum AuthError {
    InvalidCredentials(String),
    UnexpectedError(String),
}

} // verus!
