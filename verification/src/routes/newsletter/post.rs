//! Posting a newsletter issue from the admin form and sending it at once.
use vstd::prelude::*;

use crate::authentication::{AuthenticationFailure, NewsletterWritersAuthenticationError, UnexpectedAuthenticationError};
use crate::domain::SubscriberEmail;
use crate::hkt::{from_string, RefHKT, K1};
use super::{deliverable_addresses, failed_count, failures_reported, recipients, send_failures};

verus! {

/// The two renderings of an issue's content.
pub struct Content {
    pub html: String,
    pub text: String,
}

/// A newsletter issue to send.
pub struct BodyData {
    pub title: String,
    pub content: Content,
}

/// The admin form as submitted.
pub struct FormData {
    pub title: String,
    pub content_html: String,
    pub content_text: String,
}

impl From<FormData> for BodyData {
    /// The same fields, the two contents grouped.
    fn from(value: FormData) -> (r: BodyData) {
        BodyData { title: value.title, content: Content { html: value.content_html, text: value.content_text } }
    }
}

impl vstd::std_specs::convert::FromSpecImpl<FormData> for BodyData {
    open spec fn obeys_from_spec() -> bool {
        true
    }

    open spec fn from_spec(value: FormData) -> BodyData {
        BodyData { title: value.title, content: Content { html: value.content_html, text: value.content_text } }
    }
}

/// Why posting a newsletter failed.
#[derive(Debug)]
pub enum PublishNewsletterError {
    /// "Authentication failed."
    Authentication(AuthenticationFailure),
    Unexpected(UnexpectedPublishError),
}

/// A failure to post that is no refusal of the writer.
#[derive(Debug)]
pub enum UnexpectedPublishError {
    /// Authenticating the writer failed.
    Authentication(UnexpectedAuthenticationError),
    /// Reading the writer or the subscribers failed.
    Query(eyre::Report),
    /// These sends failed, one report each.
    Sending(Vec<eyre::Report>),
}

impl From<NewsletterWritersAuthenticationError> for PublishNewsletterError {
    /// A refusal stays a refusal; anything else is unexpected.
    fn from(value: NewsletterWritersAuthenticationError) -> (r: PublishNewsletterError) {
        match value {
            NewsletterWritersAuthenticationError::Authentication(f) => PublishNewsletterError::Authentication(f),
            NewsletterWritersAuthenticationError::Unexpected(e) => PublishNewsletterError::Unexpected(
                UnexpectedPublishError::Authentication(e),
            ),
        }
    }
}

impl vstd::std_specs::convert::FromSpecImpl<NewsletterWritersAuthenticationError> for PublishNewsletterError {
    open spec fn obeys_from_spec() -> bool {
        true
    }

    open spec fn from_spec(value: NewsletterWritersAuthenticationError) -> PublishNewsletterError {
        match value {
            NewsletterWritersAuthenticationError::Authentication(f) => PublishNewsletterError::Authentication(f),
            NewsletterWritersAuthenticationError::Unexpected(e) => PublishNewsletterError::Unexpected(
                UnexpectedPublishError::Authentication(e),
            ),
        }
    }
}

impl PublishNewsletterError {
    /// "401 Unauthorized" for a refused writer, "500 Internal Server Error" otherwise.
    pub fn status_code(&self) -> (r: u16)
        ensures
            r == (if self is Authentication { 401u16 } else { 500u16 }),
    {
        match self {
            PublishNewsletterError::Authentication(_) => 401,
            PublishNewsletterError::Unexpected(_) => 500,
        }
    }

    /// The `WWW-Authenticate` challenge that a refusal carries: Basic, realm "publish".
    pub fn www_authenticate(&self) -> (r: Option<&'static str>)
        ensures
            self is Authentication ==> (r matches Some(v) && v@ == "Basic realm=\"publish\""@),
            !(self is Authentication) ==> r is None,
    {
        match self {
            PublishNewsletterError::Authentication(_) => Some("Basic realm=\"publish\""),
            PublishNewsletterError::Unexpected(_) => None,
        }
    }
}

/// Flashed when an issue was sent to every recipient.
pub const POSTED_MESSAGE: &'static str = "Newsletter successfully posted";

/// Flashed, twice, when posting failed.
pub const ERROR_FLASH: &'static str = "<p><i>One or more errors occurred trying to post the newsletter.</i></p>";

/// How posting is answered; both answers redirect to the admin form.
pub enum PostAnswer {
    /// `POSTED_MESSAGE` flashed.
    Posted,
    /// `ERROR_FLASH` flashed twice.
    Failed(PublishNewsletterError),
}

/// Where posting stands. Each state but `Finished` names the outside work to do next;
/// `step` takes what it gave.
pub enum Posting<P: RefHKT<str>> {
    /// Load the user name of the logged-in writer.
    LookingUpUser { body: BodyData },
    /// Load the addresses of the confirmed subscribers.
    LoadingAddresses { body: BodyData },
    /// Send the issue to each recipient, in any order or at once.
    Sending { recipients: Vec<SubscriberEmail<P>>, subject: K1<P, str>, html_content: K1<P, str>, text_content: K1<P, str> },
    /// Posting is over.
    Finished { answer: PostAnswer },
}

/// What the outside work that a `Posting` state names gave.
pub enum PostingEvent {
    UserLoaded(Result<String, eyre::Report>),
    AddressesLoaded(Result<Vec<String>, eyre::Report>),
    /// The outcome of each send, in the order of the recipients.
    Sent(Vec<Result<(), eyre::Report>>),
}

/// `event` answers the work that `state` names.
pub open spec fn posting_answers<P: RefHKT<str>>(state: Posting<P>, event: PostingEvent) -> bool {
    match state {
        Posting::LookingUpUser { .. } => event is UserLoaded,
        Posting::LoadingAddresses { .. } => event is AddressesLoaded,
        Posting::Sending { recipients, .. } => event matches PostingEvent::Sent(results) && results@.len() == recipients@.len(),
        Posting::Finished { .. } => false,
    }
}

impl<P: RefHKT<str>> Posting<P> {
    /// The state after `event` answered the work that `self` names. The issue goes to the
    /// subscribers whose addresses `validator` accepts; posting fails if a query or any
    /// send failed.
    pub fn step(self, event: PostingEvent) -> (r: Posting<P>)
        requires
            posting_answers(self, event),
        ensures
            match (self, event) {
                (Posting::LookingUpUser { .. }, PostingEvent::UserLoaded(Err(e))) => r matches Posting::Finished {
                    answer: PostAnswer::Failed(PublishNewsletterError::Unexpected(UnexpectedPublishError::Query(e2))),
                } && e2 == e,
                (Posting::LookingUpUser { body }, PostingEvent::UserLoaded(Ok(_))) => r == (Posting::<P>::LoadingAddresses { body }),
                (Posting::LoadingAddresses { .. }, PostingEvent::AddressesLoaded(Err(e))) => r matches Posting::Finished {
                    answer: PostAnswer::Failed(PublishNewsletterError::Unexpected(UnexpectedPublishError::Query(e2))),
                } && e2 == e,
                (Posting::LoadingAddresses { body }, PostingEvent::AddressesLoaded(Ok(addresses))) =>
                    r matches Posting::Sending { recipients, subject, html_content, text_content }
                        && recipients@.len() == deliverable_addresses(addresses@).len()
                        && (forall|i: int| 0 <= i < recipients@.len() ==> (#[trigger] recipients@[i])@ == deliverable_addresses(addresses@)[i])
                        && subject@ == body.title@ && html_content@ == body.content.html@ && text_content@ == body.content.text@,
                (Posting::Sending { recipients, .. }, PostingEvent::Sent(results)) =>
                    if failed_count(results@) == 0 {
                        r matches Posting::Finished { answer: PostAnswer::Posted }
                    } else {
                        r matches Posting::Finished {
                            answer: PostAnswer::Failed(PublishNewsletterError::Unexpected(UnexpectedPublishError::Sending(v))),
                        } && failures_reported(recipients@, results@, v@)
                    },
                _ => false,
            },
    {
        match (self, event) {
            (Posting::LookingUpUser { body }, PostingEvent::UserLoaded(loaded)) => match loaded {
                Err(e) => Posting::Finished {
                    answer: PostAnswer::Failed(PublishNewsletterError::Unexpected(UnexpectedPublishError::Query(e))),
                },
                Ok(_) => Posting::LoadingAddresses { body },
            },
            (Posting::LoadingAddresses { body }, PostingEvent::AddressesLoaded(loaded)) => match loaded {
                Err(e) => Posting::Finished {
                    answer: PostAnswer::Failed(PublishNewsletterError::Unexpected(UnexpectedPublishError::Query(e))),
                },
                Ok(addresses) => {
                    let BodyData { title, content } = body;
                    Posting::Sending {
                        recipients: recipients(&addresses),
                        subject: from_string(title),
                        html_content: from_string(content.html),
                        text_content: from_string(content.text),
                    }
                },
            },
            (Posting::Sending { recipients, .. }, PostingEvent::Sent(results)) => {
                let failures = send_failures(&recipients, results);
                if failures.len() == 0 {
                    Posting::Finished { answer: PostAnswer::Posted }
                } else {
                    Posting::Finished {
                        answer: PostAnswer::Failed(PublishNewsletterError::Unexpected(UnexpectedPublishError::Sending(failures))),
                    }
                }
            },
            (state, _) => state,
        }
    }
}

} // verus!
