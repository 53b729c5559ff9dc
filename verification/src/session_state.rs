//! What the session holds of the logged-in writer.
use vstd::prelude::*;

use crate::authentication::UserId;

verus! {

/// The session key under which the logged-in writer's id is stored.
pub const USER_ID_KEY: &'static str = "user_id";

/// Why a request has no logged-in writer.
#[derive(Debug)]
pub enum RequiredUserIdError {
    /// The session could not be read.
    Session(eyre::Report),
    /// "User has not logged in."
    NotLoggedIn,
}

impl RequiredUserIdError {
    /// The error's message, where it is not an outside report's.
    pub fn message(&self) -> (r: Option<&'static str>)
        ensures
            self is NotLoggedIn ==> (r matches Some(m) && m@ == "User has not logged in."@),
            self is Session ==> r is None,
    {
        match self {
            RequiredUserIdError::Session(_) => None,
            RequiredUserIdError::NotLoggedIn => Some("User has not logged in."),
        }
    }
}

/// The logged-in writer, from what reading `USER_ID_KEY` from the session gave.
pub fn required_user_id(stored: Result<Option<uuid::Uuid>, eyre::Report>) -> (r: Result<uuid::Uuid, RequiredUserIdError>)
    ensures
        match stored {
            Ok(Some(id)) => r == Ok::<uuid::Uuid, RequiredUserIdError>(id),
            Ok(None) => r matches Err(RequiredUserIdError::NotLoggedIn),
            Err(e) => r matches Err(RequiredUserIdError::Session(e2)) && e2 == e,
        },
{
    match stored {
        Ok(Some(id)) => Ok(id),
        Ok(None) => Err(RequiredUserIdError::NotLoggedIn),
        Err(e) => Err(RequiredUserIdError::Session(e)),
    }
}

/// How a request to the admin area is let through: with its writer attached, or
/// redirected to the login page.
pub enum AdminAccess {
    Allowed(UserId),
    /// "303 See Other" to `/login`, caused by this error.
    RedirectToLogin(RequiredUserIdError),
}

/// The admin area admits a request only with a logged-in writer.
pub fn admin_access(required: Result<uuid::Uuid, RequiredUserIdError>) -> (r: AdminAccess)
    ensures
        match required {
            Ok(id) => r matches AdminAccess::Allowed(u) && u.0 == id,
            Err(e) => r matches AdminAccess::RedirectToLogin(e2) && e2 == e,
        },
{
    match required {
        Ok(id) => AdminAccess::Allowed(UserId(id)),
        Err(e) => AdminAccess::RedirectToLogin(e),
    }
}

/// Flashed when the writer logged out, before the redirection to `/login`.
pub const LOGGED_OUT_MESSAGE: &'static str = "Logged out successfully.";

/// Where the login page lives.
pub const LOGIN_PATH: &'static str = "/login";

} // verus!
