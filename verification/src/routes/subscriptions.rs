use vstd::prelude::*;

use crate::domain::new_subscriber::new_subscriber_result;
use crate::domain::{NewSubscriber, NewSubscriberParseError, SubscriberEmail};
use crate::hkt::{RefHKT, SharedPointerHKT};
use crate::report::{report_chain, report_message, report_with_context};

verus! {

/// The fields of the subscription form.
pub struct SubscribeFormData {
    pub email: String,
    pub name: String,
}

/// Why a subscription was not recorded.
#[derive(Debug)]
pub enum SubscribeError {
    /// "Parsing new subscriber failed: ..."
    Validation(NewSubscriberParseError),
    Unexpected(eyre::Report),
}

impl SubscribeError {
    /// The error's message: "Parsing new subscriber failed: " and the refusal, or the
    /// report's outermost message.
    pub fn message(&self) -> (r: String)
        ensures
            self matches SubscribeError::Validation(e) ==> r@ == "Parsing new subscriber failed: "@ + e.spec_message(),
    {
        match self {
            SubscribeError::Validation(e) => {
                let mut m = "Parsing new subscriber failed: ".to_owned();
                let inner = e.message();
                m.append(inner.as_str());
                m
            },
            SubscribeError::Unexpected(report) => report_message(report),
        }
    }

    /// The HTTP status the error is answered with.
    pub fn status_code(&self) -> (r: u16)
        ensures
            r == (match self {
                SubscribeError::Validation(_) => 400u16,
                SubscribeError::Unexpected(_) => 500u16,
            }),
    {
        match self {
            SubscribeError::Validation(_) => 400,
            SubscribeError::Unexpected(_) => 500,
        }
    }
}

/// The confirmation link for a subscription token, under the application's base URL.
pub open spec fn confirmation_link(base_url: Seq<char>, token: Seq<char>) -> Seq<char> {
    base_url + "/subscriptions/confirm?subscription_token="@ + token
}

/// The e-mail that asks a new subscriber to confirm.
pub struct ConfirmationEmail {
    pub subject: String,
    pub html_content: String,
    pub text_content: String,
}

/// The confirmation e-mail for `subscription_token`, whose link starts with `base_url`.
pub fn confirmation_email(base_url: &str, subscription_token: &str) -> (r: ConfirmationEmail)
    ensures
        r.subject@ == "Welcome!"@,
        r.html_content@ == "Welcome to our newsletter!<br />Click <a href=\""@
            + confirmation_link(base_url@, subscription_token@) + "\">here</a> to confirm your subscription."@,
        r.text_content@ == "Welcome to our newsletter!\nVisit "@ + confirmation_link(base_url@, subscription_token@)
            + " to confirm your subscription."@,
{
    let mut link = base_url.to_owned();
    link.append("/subscriptions/confirm?subscription_token=");
    link.append(subscription_token);

    let mut html_content = "Welcome to our newsletter!<br />Click <a href=\"".to_owned();
    html_content.append(link.as_str());
    html_content.append("\">here</a> to confirm your subscription.");

    let mut text_content = "Welcome to our newsletter!\nVisit ".to_owned();
    text_content.append(link.as_str());
    text_content.append(" to confirm your subscription.");

    ConfirmationEmail { subject: "Welcome!".to_owned(), html_content, text_content }
}

/// Where recording a subscription stands. Each state but `Finished` names the outside work
/// to do next; `step` takes what it gave. The work runs in one unit of work, which only
/// `Committing` commits: a refused form, or any failure, leaves nothing recorded.
pub enum Subscribing<P: RefHKT<str>> {
    /// Begin a unit of work; `form` is checked once it is open.
    Beginning { form: SubscribeFormData },
    /// Insert `subscriber` as pending confirmation.
    Inserting { subscriber: NewSubscriber<P> },
    /// Store a fresh confirmation token for subscriber `subscriber_id`.
    StoringToken { subscriber: NewSubscriber<P>, subscriber_id: uuid::Uuid },
    /// Send `email` to `recipient`.
    Sending { recipient: SubscriberEmail<P>, email: ConfirmationEmail },
    /// Commit the unit of work.
    Committing,
    /// The subscription is over: recorded, or refused with the error.
    Finished { result: Result<(), SubscribeError> },
}

/// What the outside work that a `Subscribing` state names gave.
pub enum SubscribingEvent {
    UnitOfWorkBegun(Result<(), eyre::Report>),
    SubscriberInserted(Result<uuid::Uuid, eyre::Report>),
    /// The confirmation token that was stored.
    TokenStored(Result<String, eyre::Report>),
    EmailSent(Result<(), eyre::Report>),
    Committed(Result<(), eyre::Report>),
}

/// `event` answers the work that `state` names.
pub open spec fn subscribing_answers<P: RefHKT<str>>(state: Subscribing<P>, event: SubscribingEvent) -> bool {
    match state {
        Subscribing::Beginning { .. } => event is UnitOfWorkBegun,
        Subscribing::Inserting { .. } => event is SubscriberInserted,
        Subscribing::StoringToken { .. } => event is TokenStored,
        Subscribing::Sending { .. } => event is EmailSent,
        Subscribing::Committing => event is Committed,
        Subscribing::Finished { .. } => false,
    }
}

/// `r` ends the subscription with the report `cause`, headed by `context`.
pub open spec fn fails_with<P: RefHKT<str>>(r: Subscribing<P>, cause: eyre::Report, context: Seq<char>) -> bool {
    r matches Subscribing::Finished { result: Err(SubscribeError::Unexpected(report)) }
        && report_chain(report) == seq![context] + report_chain(cause)
}

impl<P: SharedPointerHKT<str>> Subscribing<P> {
    /// The state after `event` answered the work that `self` names; `base_url` starts the
    /// confirmation link. A failure of the outside work ends the subscription with its
    /// report, headed by what failed ("Failed to insert new subscriber to database.", ...).
    pub fn step(self, event: SubscribingEvent, base_url: &str) -> (r: Subscribing<P>)
        requires
            subscribing_answers(self, event),
        ensures
            r matches Subscribing::Finished { result: Ok(()) } ==> self is Committing,
            match (self, event) {
                (Subscribing::Beginning { form }, SubscribingEvent::UnitOfWorkBegun(Ok(()))) =>
                    match r {
                        Subscribing::Inserting { subscriber } => new_subscriber_result(form.name@, form.email@, Ok(subscriber)),
                        Subscribing::Finished { result: Err(SubscribeError::Validation(e)) } =>
                            new_subscriber_result::<P>(form.name@, form.email@, Err(e)),
                        _ => false,
                    },
                (Subscribing::Inserting { subscriber }, SubscribingEvent::SubscriberInserted(Ok(id))) =>
                    r == (Subscribing::StoringToken { subscriber, subscriber_id: id }),
                (Subscribing::StoringToken { subscriber, .. }, SubscribingEvent::TokenStored(Ok(token))) =>
                    r matches Subscribing::Sending { recipient, email } && recipient@ == subscriber.email@
                        && email.subject@ == "Welcome!"@
                        && email.html_content@ == "Welcome to our newsletter!<br />Click <a href=\""@
                            + confirmation_link(base_url@, token@) + "\">here</a> to confirm your subscription."@
                        && email.text_content@ == "Welcome to our newsletter!\nVisit "@
                            + confirmation_link(base_url@, token@) + " to confirm your subscription."@,
                (Subscribing::Sending { .. }, SubscribingEvent::EmailSent(Ok(()))) => r is Committing,
                (Subscribing::Committing, SubscribingEvent::Committed(Ok(()))) =>
                    r matches Subscribing::Finished { result: Ok(()) },
                (_, SubscribingEvent::UnitOfWorkBegun(Err(e))) => fails_with(r, e, "Failed to acquire Postgres connection from pool."@),
                (_, SubscribingEvent::SubscriberInserted(Err(e))) => fails_with(r, e, "Failed to insert new subscriber to database."@),
                (_, SubscribingEvent::TokenStored(Err(e))) => fails_with(r, e, "Failed to store confirmation token of new subscriber to database."@),
                (_, SubscribingEvent::EmailSent(Err(e))) => fails_with(r, e, "Failed to send confirmation email to new subscriber's email."@),
                (_, SubscribingEvent::Committed(Err(e))) => fails_with(r, e, "Failed to commit new subscription transaction."@),
                _ => false,
            },
    {
        match (self, event) {
            (Subscribing::Beginning { form }, SubscribingEvent::UnitOfWorkBegun(begun)) => match begun {
                Err(e) => fail(e, "Failed to acquire Postgres connection from pool."),
                Ok(()) => match NewSubscriber::<P>::try_from(form) {
                    Ok(subscriber) => Subscribing::Inserting { subscriber },
                    Err(e) => Subscribing::Finished { result: Err(SubscribeError::Validation(e)) },
                },
            },
            (Subscribing::Inserting { subscriber }, SubscribingEvent::SubscriberInserted(inserted)) => match inserted {
                Err(e) => fail(e, "Failed to insert new subscriber to database."),
                Ok(subscriber_id) => Subscribing::StoringToken { subscriber, subscriber_id },
            },
            (Subscribing::StoringToken { subscriber, .. }, SubscribingEvent::TokenStored(stored)) => match stored {
                Err(e) => fail(e, "Failed to store confirmation token of new subscriber to database."),
                Ok(token) => Subscribing::Sending {
                    recipient: subscriber.email.clone(),
                    email: confirmation_email(base_url, token.as_str()),
                },
            },
            (Subscribing::Sending { .. }, SubscribingEvent::EmailSent(sent)) => match sent {
                Err(e) => fail(e, "Failed to send confirmation email to new subscriber's email."),
                Ok(()) => Subscribing::Committing,
            },
            (Subscribing::Committing, SubscribingEvent::Committed(committed)) => match committed {
                Err(e) => fail(e, "Failed to commit new subscription transaction."),
                Ok(()) => Subscribing::Finished { result: Ok(()) },
            },
            (state, _) => state,
        }
    }
}

/// The subscription ends with `report` headed by `context`.
fn fail<P: RefHKT<str>>(report: eyre::Report, context: &str) -> (r: Subscribing<P>)
    ensures
        fails_with(r, report, context@),
{
    Subscribing::Finished { result: Err(SubscribeError::Unexpected(report_with_context(report, context.to_owned()))) }
}

} // verus!
