use std::str::FromStr;
use vstd::prelude::*;

use crate::database::subscriptions_confirm::{
    GetSubscriberIdOfConfirmationTokenError, UpdateConfirmationStatusOfSubscriberIdError,
};
use crate::report::{report_chain, report_from_message, report_with_context};
use crate::text::{decimal, usize_to_decimal};

verus! {

/// The query parameters of the confirmation link.
pub struct Parameters {
    pub subscription_token: String,
}

/// Why a subscription was not confirmed.
#[derive(Debug)]
pub enum ConfirmSubscriptionTokenError {
    /// "Invalid subscription token."
    Unauthorized,
    Unexpected(eyre::Report),
}

impl ConfirmSubscriptionTokenError {
    /// The HTTP status the error is answered with.
    pub fn status_code(&self) -> (r: u16)
        ensures
            r == (match self {
                ConfirmSubscriptionTokenError::Unauthorized => 401u16,
                ConfirmSubscriptionTokenError::Unexpected(_) => 500u16,
            }),
    {
        match self {
            ConfirmSubscriptionTokenError::Unauthorized => 401,
            ConfirmSubscriptionTokenError::Unexpected(_) => 500,
        }
    }
}

/// The UUID that `Uuid::from_str` reads from `s`; `None` when it refuses `s`.
pub uninterp spec fn uuid_from_text(s: Seq<char>) -> Option<uuid::Uuid>;

/// Calls `uuid::Uuid::from_str`; which texts it reads, and as what, is named, not stated.
#[verifier::external_body]
fn parse_uuid(s: &str) -> (r: Option<uuid::Uuid>)
    ensures
        r == uuid_from_text(s@),
{
    uuid::Uuid::from_str(s).ok()
}

/// Reads the subscription token of the confirmation link; a token that is no UUID is
/// refused as unauthorized.
pub fn parse_subscription_token(parameters: &Parameters) -> (r: Result<uuid::Uuid, ConfirmSubscriptionTokenError>)
    ensures
        match uuid_from_text(parameters.subscription_token@) {
            Some(u) => r == Ok::<uuid::Uuid, ConfirmSubscriptionTokenError>(u),
            None => r matches Err(ConfirmSubscriptionTokenError::Unauthorized),
        },
{
    match parse_uuid(parameters.subscription_token.as_str()) {
        Some(u) => Ok(u),
        None => Err(ConfirmSubscriptionTokenError::Unauthorized),
    }
}

impl From<GetSubscriberIdOfConfirmationTokenError> for ConfirmSubscriptionTokenError {
    /// An unknown token is unauthorized; any other failure is unexpected.
    fn from(value: GetSubscriberIdOfConfirmationTokenError) -> (r: ConfirmSubscriptionTokenError) {
        match value {
            GetSubscriberIdOfConfirmationTokenError::TokenNotFound { .. } => ConfirmSubscriptionTokenError::Unauthorized,
            GetSubscriberIdOfConfirmationTokenError::Unexpected(e) => ConfirmSubscriptionTokenError::Unexpected(e),
        }
    }
}

impl vstd::std_specs::convert::FromSpecImpl<GetSubscriberIdOfConfirmationTokenError> for ConfirmSubscriptionTokenError {
    open spec fn obeys_from_spec() -> bool {
        true
    }

    open spec fn from_spec(value: GetSubscriberIdOfConfirmationTokenError) -> ConfirmSubscriptionTokenError {
        match value {
            GetSubscriberIdOfConfirmationTokenError::TokenNotFound { .. } => ConfirmSubscriptionTokenError::Unauthorized,
            GetSubscriberIdOfConfirmationTokenError::Unexpected(e) => ConfirmSubscriptionTokenError::Unexpected(e),
        }
    }
}

/// The text that describes a failed status update.
pub open spec fn update_confirmation_message(value: UpdateConfirmationStatusOfSubscriberIdError) -> Seq<char> {
    match value {
        UpdateConfirmationStatusOfSubscriberIdError::AbnormalUpdatedRowCount(n) => "Updated row count is not one: "@ + decimal(n as nat),
        UpdateConfirmationStatusOfSubscriberIdError::Unexpected(_) => "Database error occured trying to update confirmation status of subscriber id."@,
    }
}

impl UpdateConfirmationStatusOfSubscriberIdError {
    /// The text that describes the error.
    pub fn message(&self) -> (r: String)
        ensures
            r@ == update_confirmation_message(*self),
    {
        match self {
            UpdateConfirmationStatusOfSubscriberIdError::AbnormalUpdatedRowCount(n) => {
                let mut m = "Updated row count is not one: ".to_owned();
                let digits = usize_to_decimal(*n);
                m.append(digits.as_str());
                m
            },
            UpdateConfirmationStatusOfSubscriberIdError::Unexpected(_) => "Database error occured trying to update confirmation status of subscriber id.".to_owned(),
        }
    }
}

/// The chain of texts of the report that a failed status update becomes: the error's
/// message, in front of the database error's own chain where there is one.
pub open spec fn update_failure_chain(value: UpdateConfirmationStatusOfSubscriberIdError) -> Seq<Seq<char>> {
    match value {
        UpdateConfirmationStatusOfSubscriberIdError::AbnormalUpdatedRowCount(_) => seq![update_confirmation_message(value)],
        UpdateConfirmationStatusOfSubscriberIdError::Unexpected(e) => seq![update_confirmation_message(value)] + report_chain(e),
    }
}

impl From<UpdateConfirmationStatusOfSubscriberIdError> for ConfirmSubscriptionTokenError {
    /// Every failed status update is unexpected; its report carries the error's message.
    fn from(value: UpdateConfirmationStatusOfSubscriberIdError) -> (r: ConfirmSubscriptionTokenError)
        ensures
            r matches ConfirmSubscriptionTokenError::Unexpected(report) && report_chain(report) == update_failure_chain(value),
    {
        let message = value.message();
        match value {
            UpdateConfirmationStatusOfSubscriberIdError::AbnormalUpdatedRowCount(_) => ConfirmSubscriptionTokenError::Unexpected(report_from_message(message)),
            UpdateConfirmationStatusOfSubscriberIdError::Unexpected(e) => ConfirmSubscriptionTokenError::Unexpected(report_with_context(e, message)),
        }
    }
}

impl vstd::std_specs::convert::FromSpecImpl<UpdateConfirmationStatusOfSubscriberIdError> for ConfirmSubscriptionTokenError {
    open spec fn obeys_from_spec() -> bool {
        false
    }

    open spec fn from_spec(value: UpdateConfirmationStatusOfSubscriberIdError) -> ConfirmSubscriptionTokenError {
        ConfirmSubscriptionTokenError::Unexpected(arbitrary())
    }
}

/// Where confirming a subscription stands. Each state but `Finished` names the outside
/// work to do next; `step` takes what it gave.
pub enum Confirming {
    /// Find the subscriber that `token` was issued to.
    LookingUp { token: uuid::Uuid },
    /// Mark subscriber `subscriber_id` as confirmed.
    Updating { subscriber_id: uuid::Uuid },
    /// Confirming is over: done ("200 OK"), or refused with the error.
    Finished { result: Result<(), ConfirmSubscriptionTokenError> },
}

/// What the outside work that a `Confirming` state names gave.
pub enum ConfirmingEvent {
    SubscriberFound(Result<uuid::Uuid, GetSubscriberIdOfConfirmationTokenError>),
    StatusUpdated(Result<(), UpdateConfirmationStatusOfSubscriberIdError>),
}

/// `event` answers the work that `state` names.
pub open spec fn confirming_answers(state: Confirming, event: ConfirmingEvent) -> bool {
    match state {
        Confirming::LookingUp { .. } => event is SubscriberFound,
        Confirming::Updating { .. } => event is StatusUpdated,
        Confirming::Finished { .. } => false,
    }
}

impl Confirming {
    /// Confirming with the token of the confirmation link; a token that is no UUID ends it
    /// at once as unauthorized.
    pub fn start(parameters: &Parameters) -> (r: Confirming)
        ensures
            match uuid_from_text(parameters.subscription_token@) {
                Some(u) => r == (Confirming::LookingUp { token: u }),
                None => r matches Confirming::Finished { result: Err(ConfirmSubscriptionTokenError::Unauthorized) },
            },
    {
        match parse_subscription_token(parameters) {
            Ok(token) => Confirming::LookingUp { token },
            Err(e) => Confirming::Finished { result: Err(e) },
        }
    }

    /// The state after `event` answered the work that `self` names. An unknown token is
    /// unauthorized; any other failure is unexpected.
    pub fn step(self, event: ConfirmingEvent) -> (r: Confirming)
        requires
            confirming_answers(self, event),
        ensures
            match (self, event) {
                (Confirming::LookingUp { .. }, ConfirmingEvent::SubscriberFound(Ok(id))) =>
                    r == (Confirming::Updating { subscriber_id: id }),
                (Confirming::LookingUp { .. }, ConfirmingEvent::SubscriberFound(Err(GetSubscriberIdOfConfirmationTokenError::TokenNotFound { .. }))) =>
                    r matches Confirming::Finished { result: Err(ConfirmSubscriptionTokenError::Unauthorized) },
                (Confirming::LookingUp { .. }, ConfirmingEvent::SubscriberFound(Err(GetSubscriberIdOfConfirmationTokenError::Unexpected(e)))) =>
                    r matches Confirming::Finished { result: Err(ConfirmSubscriptionTokenError::Unexpected(e2)) } && e2 == e,
                (Confirming::Updating { .. }, ConfirmingEvent::StatusUpdated(Ok(()))) =>
                    r matches Confirming::Finished { result: Ok(()) },
                (Confirming::Updating { .. }, ConfirmingEvent::StatusUpdated(Err(e))) =>
                    r matches Confirming::Finished { result: Err(ConfirmSubscriptionTokenError::Unexpected(report)) }
                        && report_chain(report) == update_failure_chain(e),
                _ => false,
            },
    {
        match (self, event) {
            (Confirming::LookingUp { .. }, ConfirmingEvent::SubscriberFound(found)) => match found {
                Ok(subscriber_id) => Confirming::Updating { subscriber_id },
                Err(e) => Confirming::Finished { result: Err(ConfirmSubscriptionTokenError::from(e)) },
            },
            (Confirming::Updating { .. }, ConfirmingEvent::StatusUpdated(updated)) => match updated {
                Ok(()) => Confirming::Finished { result: Ok(()) },
                Err(e) => Confirming::Finished { result: Err(ConfirmSubscriptionTokenError::from(e)) },
            },
            (state, _) => state,
        }
    }
}

} // verus!
