//! Logging in with a user name and a password.
use vstd::prelude::*;

use crate::authentication::{AuthenticationFailure, NewsletterWritersAuthenticationError, UnexpectedAuthenticationError};
use crate::report::report_message;
use crate::text::{percent_encoded, url_encode};

verus! {

/// The login form as submitted.
pub struct LoginFormData {
    pub username: String,
    pub password: String,
}

/// Why a login failed.
#[derive(Debug)]
pub enum LoginError {
    /// "Authentication failed."
    Authentication(AuthenticationFailure),
    Unexpected(LoginUnexpectedError),
}

/// A login failure that is no refusal of the credentials.
#[derive(Debug)]
pub enum LoginUnexpectedError {
    /// Authenticating the writer failed.
    Authentication(UnexpectedAuthenticationError),
    /// The user id could not be stored in the session.
    Session(eyre::Report),
}

impl From<NewsletterWritersAuthenticationError> for LoginError {
    /// A refusal stays a refusal; anything else is unexpected.
    fn from(value: NewsletterWritersAuthenticationError) -> (r: LoginError) {
        match value {
            NewsletterWritersAuthenticationError::Authentication(f) => LoginError::Authentication(f),
            NewsletterWritersAuthenticationError::Unexpected(e) => LoginError::Unexpected(LoginUnexpectedError::Authentication(e)),
        }
    }
}

impl vstd::std_specs::convert::FromSpecImpl<NewsletterWritersAuthenticationError> for LoginError {
    open spec fn obeys_from_spec() -> bool {
        true
    }

    open spec fn from_spec(value: NewsletterWritersAuthenticationError) -> LoginError {
        match value {
            NewsletterWritersAuthenticationError::Authentication(f) => LoginError::Authentication(f),
            NewsletterWritersAuthenticationError::Unexpected(e) => LoginError::Unexpected(LoginUnexpectedError::Authentication(e)),
        }
    }
}

/// The message of a login failure, where it does not come from an outside report.
pub open spec fn login_error_message(e: LoginError) -> Option<Seq<char>> {
    match e {
        LoginError::Authentication(_) => Some("Authentication failed."@),
        LoginError::Unexpected(LoginUnexpectedError::Authentication(UnexpectedAuthenticationError::ValidationTaskFailed)) =>
            Some("Failed to spawn a new thread to validate password."@),
        LoginError::Unexpected(LoginUnexpectedError::Authentication(UnexpectedAuthenticationError::Validation(_))) =>
            Some("Error occurred trying to validate password."@),
        _ => None,
    }
}

/// Where a failed login is sent: the login page with `message` percent-encoded as its
/// `error` parameter.
pub open spec fn login_error_location(message: Seq<char>) -> Seq<char> {
    "/login?error="@ + percent_encoded(vstd::utf8::encode_utf8(message))
}

impl LoginError {
    /// The failure's message; a failed lookup or session write shows its report's
    /// outermost message.
    pub fn message(&self) -> (r: String)
        ensures
            login_error_message(*self) matches Some(m) ==> r@ == m,
    {
        match self {
            LoginError::Authentication(_) => "Authentication failed.".to_owned(),
            LoginError::Unexpected(LoginUnexpectedError::Authentication(e)) => match e {
                UnexpectedAuthenticationError::Lookup(report) => report_message(report),
                UnexpectedAuthenticationError::ValidationTaskFailed => "Failed to spawn a new thread to validate password.".to_owned(),
                UnexpectedAuthenticationError::Validation(_) => "Error occurred trying to validate password.".to_owned(),
            },
            LoginError::Unexpected(LoginUnexpectedError::Session(report)) => report_message(report),
        }
    }

    /// Every login failure answers "303 See Other".
    pub fn status_code(&self) -> (r: u16)
        ensures
            r == 303,
    {
        303
    }

    /// The `Location` of the answer to a failed login.
    pub fn location(&self) -> (r: String)
        ensures
            login_error_message(*self) matches Some(m) ==> r@ == login_error_location(m),
    {
        let message = self.message();
        error_location(message.as_str())
    }
}

/// The login page with `message` percent-encoded as its `error` parameter.
pub fn error_location(message: &str) -> (r: String)
    ensures
        r@ == login_error_location(message@),
{
    let encoded = url_encode(message);
    let mut location = "/login?error=".to_owned();
    location.append(encoded.as_str());
    location
}

/// How a login attempt is answered: a redirection to `location`, with `flash_error` shown
/// there where there is one.
pub struct LoginResponse {
    pub location: String,
    pub flash_error: Option<String>,
}

/// A login that stored the user in the session goes to the admin dashboard; a failed one
/// goes back to the login page with the failure's message flashed.
pub fn login_response(outcome: &Result<(), LoginError>) -> (r: LoginResponse)
    ensures
        match outcome {
            Ok(()) => r.location@ == "/admin/dashboard"@ && r.flash_error is None,
            Err(e) => r.location@ == "/login"@ && r.flash_error is Some
                && (login_error_message(*e) matches Some(m) ==> r.flash_error->0@ == m),
        },
{
    match outcome {
        Ok(()) => LoginResponse { location: "/admin/dashboard".to_owned(), flash_error: None },
        Err(e) => LoginResponse { location: "/login".to_owned(), flash_error: Some(e.message()) },
    }
}

} // verus!
