use std::ops::ControlFlow;
use vstd::prelude::*;

use crate::database::newsletters::NewsletterContent;
use crate::domain::subscriber_email::{html5_email_is_valid, invalid_email_message};
use crate::domain::{SubscriberEmail, SubscriberEmailParseError};
use crate::configuration::{duration_from_millis, EmailClientSettings};
use crate::email_client::EmailClient;
use crate::hkt::{from_string, RefHKT, SharedPointerHKT, K1};
use crate::report::{report_chain, report_from_message, report_with_context, stashed_errors};

verus! {

/// One pending delivery: an issue to send to one subscriber address.
pub struct IssueDeliveryRecord {
    pub newsletter_issue_id: uuid::Uuid,
    pub subscriber_email: String,
}

/// What one round of picking an issue and sending it ended with.
#[derive(Debug)]
pub enum SingleNewsletterPickingAndSendingTaskResult {
    Completed,
    NothingFound,
    Error(eyre::Report),
}

impl From<Result<SingleNewsletterPickingAndSendingTaskResult, eyre::Report>> for SingleNewsletterPickingAndSendingTaskResult {
    /// A result as it is, an error as `Error`.
    fn from(value: Result<SingleNewsletterPickingAndSendingTaskResult, eyre::Report>) -> (r: SingleNewsletterPickingAndSendingTaskResult) {
        match value {
            Ok(r) => r,
            Err(e) => SingleNewsletterPickingAndSendingTaskResult::Error(e),
        }
    }
}

impl vstd::std_specs::convert::FromSpecImpl<Result<SingleNewsletterPickingAndSendingTaskResult, eyre::Report>> for SingleNewsletterPickingAndSendingTaskResult {
    open spec fn obeys_from_spec() -> bool {
        true
    }

    open spec fn from_spec(value: Result<SingleNewsletterPickingAndSendingTaskResult, eyre::Report>) -> SingleNewsletterPickingAndSendingTaskResult {
        match value {
            Ok(r) => r,
            Err(e) => SingleNewsletterPickingAndSendingTaskResult::Error(e),
        }
    }
}

/// How many seconds the worker pauses after a round: none after a completed round, ten
/// when there was nothing to send, one after an error.
pub fn pause_after(result: &SingleNewsletterPickingAndSendingTaskResult) -> (r: Option<u64>)
    ensures
        r == (match result {
            SingleNewsletterPickingAndSendingTaskResult::Completed => None::<u64>,
            SingleNewsletterPickingAndSendingTaskResult::NothingFound => Some(10u64),
            SingleNewsletterPickingAndSendingTaskResult::Error(_) => Some(1u64),
        }),
{
    match result {
        SingleNewsletterPickingAndSendingTaskResult::Completed => None,
        SingleNewsletterPickingAndSendingTaskResult::NothingFound => Some(10),
        SingleNewsletterPickingAndSendingTaskResult::Error(_) => Some(1),
    }
}

/// Why one delivery attempt failed.
#[derive(Debug)]
pub enum DeliveryFailure {
    /// No unit of work could be begun.
    Begin(eyre::Report),
    /// No task could be acquired.
    Acquire(eyre::Report),
    /// The e-mail went out, but its task could not be finalized.
    Finalize { email: String, cause: eyre::Report },
    /// The e-mail could not be sent; a retry was scheduled, which may have failed too.
    Send { email: String, send_error: eyre::Report, retry_error: Option<eyre::Report> },
    /// The unit of work could not be committed.
    Commit(eyre::Report),
}

/// The summary of a failed delivery, where it has one of its own.
pub open spec fn delivery_failure_summary(f: DeliveryFailure) -> Option<Seq<char>> {
    match f {
        DeliveryFailure::Finalize { email, .. } => Some("Failed to finalize newsletter task to: '"@ + email@ + "'"@),
        DeliveryFailure::Send { email, .. } => Some("Failed to send newsletter to: '"@ + email@ + "'"@),
        DeliveryFailure::Commit(_) => Some("Failed to commit unit of work."@),
        _ => None,
    }
}

/// `r` is the report of failure `f`: a failed begin or acquire is its own report; a
/// failed finalize or commit is its cause headed by its summary; a failed send is one
/// message that starts with its summary.
pub open spec fn reports_delivery_failure(f: DeliveryFailure, r: eyre::Report) -> bool {
    match f {
        DeliveryFailure::Begin(e) => r == e,
        DeliveryFailure::Acquire(e) => r == e,
        DeliveryFailure::Finalize { email, cause } => report_chain(r) == seq![
            "Failed to finalize newsletter task to: '"@ + email@ + "'"@,
        ] + report_chain(cause),
        DeliveryFailure::Commit(e) => report_chain(r) == seq!["Failed to commit unit of work."@] + report_chain(e),
        DeliveryFailure::Send { email, .. } => report_chain(r).len() == 1
            && ("Failed to send newsletter to: '"@ + email@ + "'"@).is_prefix_of(report_chain(r)[0]),
    }
}

impl DeliveryFailure {
    /// The summary put in front of the failure's causes, where it has one.
    pub fn summary(&self) -> (r: Option<String>)
        ensures
            match delivery_failure_summary(*self) {
                Some(m) => r matches Some(s) && s@ == m,
                None => r is None,
            },
    {
        match self {
            DeliveryFailure::Finalize { email, .. } => {
                let mut m = "Failed to finalize newsletter task to: '".to_owned();
                m.append(email.as_str());
                m.append("'");
                Some(m)
            },
            DeliveryFailure::Send { email, .. } => {
                let mut m = "Failed to send newsletter to: '".to_owned();
                m.append(email.as_str());
                m.append("'");
                Some(m)
            },
            DeliveryFailure::Commit(_) => Some("Failed to commit unit of work.".to_owned()),
            _ => None,
        }
    }

    /// The failure as one report: the summary, where there is one, wraps the cause; a
    /// failed send stashes the failed retry, wrapped in "Failed to schedule task retry.",
    /// before the send error. A failed begin or acquire is its own report.
    pub fn into_report(self) -> (r: eyre::Report)
        ensures
            reports_delivery_failure(self, r),
    {
        let summary = self.summary();
        match self {
            DeliveryFailure::Begin(e) => e,
            DeliveryFailure::Acquire(e) => e,
            DeliveryFailure::Finalize { cause, .. } => match summary {
                Some(m) => report_with_context(cause, m),
                None => cause,
            },
            DeliveryFailure::Send { email, send_error, retry_error } => {
                let (m, retried, send_error) = send_failure_stash(email, send_error, retry_error);
                match stashed_errors(m, retried, send_error) {
                    Err(report) => report,
                    Ok(()) => report_from_message(String::new()),
                }
            },
            DeliveryFailure::Commit(e) => match summary {
                Some(m) => report_with_context(e, m),
                None => e,
            },
        }
    }
}

/// What the report of a failed send to `email` stashes, in order: the summary, the failed
/// retry (if it failed) headed by "Failed to schedule task retry.", then the send error.
pub fn send_failure_stash(
    email: String,
    send_error: eyre::Report,
    retry_error: Option<eyre::Report>,
) -> (r: (String, Result<(), eyre::Report>, eyre::Report))
    ensures
        r.0@ == "Failed to send newsletter to: '"@ + email@ + "'"@,
        match retry_error {
            None => r.1 is Ok,
            Some(e) => r.1 matches Err(retried) && report_chain(retried) == seq!["Failed to schedule task retry."@] + report_chain(e),
        },
        r.2 == send_error,
{
    let mut summary = "Failed to send newsletter to: '".to_owned();
    summary.append(email.as_str());
    summary.append("'");
    let retried = match retry_error {
        None => Ok(()),
        Some(e) => Err(report_with_context(e, "Failed to schedule task retry.".to_owned())),
    };
    (summary, retried, send_error)
}

/// How a delivery attempt ends: go on with the next subscriber, stop because every
/// subscriber was served, or stop on a failure.
pub type DeliveryOutcome = ControlFlow<Result<(), DeliveryFailure>, ()>;

/// Where one attempt to deliver an issue to one subscriber stands. Each state but
/// `Finished` names the outside work to do next; `step` takes what it gave.
pub enum Delivery<P: RefHKT<str>> {
    /// Begin a unit of work.
    Start,
    /// Acquire a pending task of the issue.
    Acquiring,
    /// Send the issue to `email`.
    Sending { record: IssueDeliveryRecord, email: SubscriberEmail<P> },
    /// The issue was sent; finalize the task.
    Finalizing { record: IssueDeliveryRecord, email: SubscriberEmail<P> },
    /// Sending failed with `send_error`; schedule a retry of the task.
    Retrying { record: IssueDeliveryRecord, email: SubscriberEmail<P>, send_error: eyre::Report },
    /// The task's address is invalid; disable the task.
    Disabling { record: IssueDeliveryRecord },
    /// Commit the unit of work; the attempt then ends with `outcome`.
    Committing { outcome: DeliveryOutcome },
    /// The attempt is over.
    Finished { outcome: DeliveryOutcome },
}

/// What the outside work that a `Delivery` state names gave.
pub enum DeliveryEvent {
    UnitOfWorkBegun(Result<(), eyre::Report>),
    TaskAcquired(Result<Option<IssueDeliveryRecord>, eyre::Report>),
    EmailSent(Result<(), eyre::Report>),
    TaskFinalized(Result<(), eyre::Report>),
    RetryScheduled(Result<(), eyre::Report>),
    TaskDisabled(Result<(), eyre::Report>),
    Committed(Result<(), eyre::Report>),
}

/// `event` answers the work that `state` names.
pub open spec fn answers<P: RefHKT<str>>(state: Delivery<P>, event: DeliveryEvent) -> bool {
    match state {
        Delivery::Start => event is UnitOfWorkBegun,
        Delivery::Acquiring => event is TaskAcquired,
        Delivery::Sending { .. } => event is EmailSent,
        Delivery::Finalizing { .. } => event is TaskFinalized,
        Delivery::Retrying { .. } => event is RetryScheduled,
        Delivery::Disabling { .. } => event is TaskDisabled,
        Delivery::Committing { .. } => event is Committed,
        Delivery::Finished { .. } => false,
    }
}

impl<P: RefHKT<str>> Delivery<P> {
    /// The state after `event` answered the work that `self` names. An address that
    /// `validator` refuses has its task disabled and the attempt goes on with the next
    /// subscriber; a failed send schedules a retry; once a unit of work is open, every
    /// path ends by committing it, and a failed commit overrides the outcome.
    pub fn step(self, event: DeliveryEvent) -> (r: Delivery<P>)
        requires
            answers(self, event),
        ensures
            r is Finished ==> (self is Start || self is Committing),
            match (self, event) {
                (Delivery::Start, DeliveryEvent::UnitOfWorkBegun(Ok(()))) => r is Acquiring,
                (Delivery::Start, DeliveryEvent::UnitOfWorkBegun(Err(e))) => r matches Delivery::Finished { outcome: ControlFlow::Break(Err(DeliveryFailure::Begin(e2))) } && e2 == e,
                (Delivery::Acquiring, DeliveryEvent::TaskAcquired(Ok(Some(record)))) =>
                    if html5_email_is_valid(record.subscriber_email@) {
                        r matches Delivery::Sending { record: r2, email } && r2 == record && email@ == record.subscriber_email@
                    } else {
                        r matches Delivery::Disabling { record: r2 } && r2 == record
                    },
                (Delivery::Acquiring, DeliveryEvent::TaskAcquired(Ok(None))) => r == Delivery::<P>::Committing { outcome: ControlFlow::Break(Ok(())) },
                (Delivery::Acquiring, DeliveryEvent::TaskAcquired(Err(e))) => r matches Delivery::Committing { outcome: ControlFlow::Break(Err(DeliveryFailure::Acquire(e2))) } && e2 == e,
                (Delivery::Sending { record, email }, DeliveryEvent::EmailSent(Ok(()))) => r == Delivery::Finalizing { record, email },
                (Delivery::Sending { record, email }, DeliveryEvent::EmailSent(Err(e))) => r == Delivery::Retrying { record, email, send_error: e },
                (Delivery::Finalizing { .. }, DeliveryEvent::TaskFinalized(Ok(()))) => r == Delivery::<P>::Committing { outcome: ControlFlow::Continue(()) },
                (Delivery::Finalizing { email, .. }, DeliveryEvent::TaskFinalized(Err(e))) =>
                    r matches Delivery::Committing { outcome: ControlFlow::Break(Err(DeliveryFailure::Finalize { email: m, cause })) } && m@ == email@ && cause == e,
                (Delivery::Retrying { email, send_error, .. }, DeliveryEvent::RetryScheduled(res)) =>
                    r matches Delivery::Committing { outcome: ControlFlow::Break(Err(DeliveryFailure::Send { email: m, send_error: s, retry_error })) }
                        && m@ == email@ && s == send_error
                        && retry_error == (match res { Ok(()) => None::<eyre::Report>, Err(x) => Some(x) }),
                (Delivery::Disabling { .. }, DeliveryEvent::TaskDisabled(_)) => r == Delivery::<P>::Committing { outcome: ControlFlow::Continue(()) },
                (Delivery::Committing { outcome }, DeliveryEvent::Committed(Ok(()))) => r == Delivery::<P>::Finished { outcome },
                (Delivery::Committing { .. }, DeliveryEvent::Committed(Err(e))) => r matches Delivery::Finished { outcome: ControlFlow::Break(Err(DeliveryFailure::Commit(e2))) } && e2 == e,
                _ => false,
            },
    {
        match (self, event) {
            (Delivery::Start, DeliveryEvent::UnitOfWorkBegun(began)) => match began {
                Ok(()) => Delivery::Acquiring,
                Err(e) => Delivery::Finished { outcome: ControlFlow::Break(Err(DeliveryFailure::Begin(e))) },
            },
            (Delivery::Acquiring, DeliveryEvent::TaskAcquired(acquired)) => match acquired {
                Ok(Some(record)) => match SubscriberEmail::<P>::try_from(record.subscriber_email.as_str()) {
                    Ok(email) => Delivery::Sending { record, email },
                    Err(_) => Delivery::Disabling { record },
                },
                Ok(None) => Delivery::Committing { outcome: ControlFlow::Break(Ok(())) },
                Err(e) => Delivery::Committing { outcome: ControlFlow::Break(Err(DeliveryFailure::Acquire(e))) },
            },
            (Delivery::Sending { record, email }, DeliveryEvent::EmailSent(sent)) => match sent {
                Ok(()) => Delivery::Finalizing { record, email },
                Err(e) => Delivery::Retrying { record, email, send_error: e },
            },
            (Delivery::Finalizing { email, .. }, DeliveryEvent::TaskFinalized(finalized)) => match finalized {
                Ok(()) => Delivery::Committing { outcome: ControlFlow::Continue(()) },
                Err(e) => Delivery::Committing {
                    outcome: ControlFlow::Break(Err(DeliveryFailure::Finalize { email: email.as_str().to_owned(), cause: e })),
                },
            },
            (Delivery::Retrying { email, send_error, .. }, DeliveryEvent::RetryScheduled(scheduled)) => {
                let retry_error = match scheduled {
                    Ok(()) => None,
                    Err(e) => Some(e),
                };
                Delivery::Committing {
                    outcome: ControlFlow::Break(Err(DeliveryFailure::Send { email: email.as_str().to_owned(), send_error, retry_error })),
                }
            },
            (Delivery::Disabling { .. }, DeliveryEvent::TaskDisabled(_)) => Delivery::Committing { outcome: ControlFlow::Continue(()) },
            (Delivery::Committing { outcome }, DeliveryEvent::Committed(committed)) => match committed {
                Ok(()) => Delivery::Finished { outcome },
                Err(e) => Delivery::Finished { outcome: ControlFlow::Break(Err(DeliveryFailure::Commit(e))) },
            },
            (Delivery::Finished { outcome }, _) => Delivery::Finished { outcome },
            (state, _) => state,
        }
    }
}

/// Where one round of picking an issue and sending it to its subscribers stands. Each
/// state but `Finished` names the outside work to do next; `step` takes what it gave. The
/// round's unit of work is never committed: the tasks it acquired are left to later rounds.
pub enum Picking<P: RefHKT<str>> {
    /// Begin a unit of work.
    Start,
    /// Acquire an issue that has pending tasks.
    AcquiringIssue,
    /// Load the content of issue `issue_id`.
    LoadingContent { issue_id: uuid::Uuid },
    /// Run one delivery attempt of issue `issue_id` with this content.
    Delivering { issue_id: uuid::Uuid, subject: K1<P, str>, html_content: K1<P, str>, text_content: K1<P, str> },
    /// The round is over.
    Finished { result: SingleNewsletterPickingAndSendingTaskResult },
}

/// What the outside work that a `Picking` state names gave.
pub enum PickingEvent {
    UnitOfWorkBegun(Result<(), eyre::Report>),
    IssueAcquired(Result<Option<uuid::Uuid>, eyre::Report>),
    ContentLoaded(Result<NewsletterContent, eyre::Report>),
    DeliveryEnded(DeliveryOutcome),
}

/// `event` answers the work that `state` names.
pub open spec fn picking_answers<P: RefHKT<str>>(state: Picking<P>, event: PickingEvent) -> bool {
    match state {
        Picking::Start => event is UnitOfWorkBegun,
        Picking::AcquiringIssue => event is IssueAcquired,
        Picking::LoadingContent { .. } => event is ContentLoaded,
        Picking::Delivering { .. } => event is DeliveryEnded,
        Picking::Finished { .. } => false,
    }
}

impl<P: RefHKT<str>> Picking<P> {
    /// The state after `event` answered the work that `self` names. No issue to pick ends
    /// the round with `NothingFound`; delivery attempts go on while they continue; a
    /// delivery attempt that finds no task left completes the round, one that fails ends
    /// it with the failure as its error.
    pub fn step(self, event: PickingEvent) -> (r: Picking<P>)
        requires
            picking_answers(self, event),
        ensures
            match (self, event) {
                (Picking::Start, PickingEvent::UnitOfWorkBegun(Ok(()))) => r is AcquiringIssue,
                (Picking::Start, PickingEvent::UnitOfWorkBegun(Err(e))) =>
                    r == Picking::<P>::Finished { result: SingleNewsletterPickingAndSendingTaskResult::Error(e) },
                (Picking::AcquiringIssue, PickingEvent::IssueAcquired(Ok(Some(id)))) => r == Picking::<P>::LoadingContent { issue_id: id },
                (Picking::AcquiringIssue, PickingEvent::IssueAcquired(Ok(None))) =>
                    r == Picking::<P>::Finished { result: SingleNewsletterPickingAndSendingTaskResult::NothingFound },
                (Picking::AcquiringIssue, PickingEvent::IssueAcquired(Err(e))) =>
                    r == Picking::<P>::Finished { result: SingleNewsletterPickingAndSendingTaskResult::Error(e) },
                (Picking::LoadingContent { issue_id }, PickingEvent::ContentLoaded(Ok(content))) =>
                    r matches Picking::Delivering { issue_id: id, subject, html_content, text_content }
                        && id == issue_id && subject@ == content.title@ && html_content@ == content.html_content@
                        && text_content@ == content.text_content@,
                (Picking::LoadingContent { .. }, PickingEvent::ContentLoaded(Err(e))) =>
                    r == Picking::<P>::Finished { result: SingleNewsletterPickingAndSendingTaskResult::Error(e) },
                (Picking::Delivering { .. }, PickingEvent::DeliveryEnded(ControlFlow::Continue(()))) => r == self,
                (Picking::Delivering { .. }, PickingEvent::DeliveryEnded(ControlFlow::Break(Ok(())))) =>
                    r == Picking::<P>::Finished { result: SingleNewsletterPickingAndSendingTaskResult::Completed },
                (Picking::Delivering { .. }, PickingEvent::DeliveryEnded(ControlFlow::Break(Err(failure)))) =>
                    r matches Picking::Finished { result: SingleNewsletterPickingAndSendingTaskResult::Error(report) }
                        && reports_delivery_failure(failure, report),
                _ => false,
            },
    {
        match (self, event) {
            (Picking::Start, PickingEvent::UnitOfWorkBegun(began)) => match began {
                Ok(()) => Picking::AcquiringIssue,
                Err(e) => Picking::Finished { result: SingleNewsletterPickingAndSendingTaskResult::Error(e) },
            },
            (Picking::AcquiringIssue, PickingEvent::IssueAcquired(acquired)) => match acquired {
                Ok(Some(id)) => Picking::LoadingContent { issue_id: id },
                Ok(None) => Picking::Finished { result: SingleNewsletterPickingAndSendingTaskResult::NothingFound },
                Err(e) => Picking::Finished { result: SingleNewsletterPickingAndSendingTaskResult::Error(e) },
            },
            (Picking::LoadingContent { issue_id }, PickingEvent::ContentLoaded(loaded)) => match loaded {
                Ok(content) => {
                    let NewsletterContent { title, text_content, html_content } = content;
                    Picking::Delivering {
                        issue_id,
                        subject: from_string(title),
                        html_content: from_string(html_content),
                        text_content: from_string(text_content),
                    }
                },
                Err(e) => Picking::Finished { result: SingleNewsletterPickingAndSendingTaskResult::Error(e) },
            },
            (Picking::Delivering { issue_id, subject, html_content, text_content }, PickingEvent::DeliveryEnded(outcome)) =>
                match outcome {
                    ControlFlow::Continue(()) => Picking::Delivering { issue_id, subject, html_content, text_content },
                    ControlFlow::Break(Ok(())) => Picking::Finished { result: SingleNewsletterPickingAndSendingTaskResult::Completed },
                    ControlFlow::Break(Err(failure)) => Picking::Finished {
                        result: SingleNewsletterPickingAndSendingTaskResult::Error(failure.into_report()),
                    },
                },
            (state, _) => state,
        }
    }
}

/// Why the worker could not start.
#[derive(Debug)]
pub enum WorkerStartError {
    /// "Invalid sender email address."
    InvalidSender(SubscriberEmailParseError),
    /// No HTTP client could be built.
    HttpClient(reqwest::Error),
}

/// The e-mail client the worker sends with, made from its settings: the configured sender
/// must be a valid address.
pub fn worker_email_client<P: SharedPointerHKT<str> + RefHKT<reqwest::Client>>(
    settings: &EmailClientSettings<P>,
) -> (r: Result<EmailClient<P>, WorkerStartError>)
    ensures
        !html5_email_is_valid(settings.sender_email@) ==> (r matches Err(WorkerStartError::InvalidSender(e))
            && e.spec_message() == invalid_email_message(settings.sender_email@)),
        html5_email_is_valid(settings.sender_email@) ==> match r {
            Ok(c) => c.base_url() == settings.base_url@ && c.sender() == settings.sender_email@
                && c.authorization_token() == settings.authorization_token@
                && c.timeout() == duration_from_millis(settings.timeout_milliseconds),
            Err(e) => e is HttpClient,
        },
{
    let sender = match settings.sender() {
        Ok(sender) => sender,
        Err(e) => return Err(WorkerStartError::InvalidSender(e)),
    };
    let timeout = settings.timeout();
    match EmailClient::new(settings.base_url.clone(), sender, settings.authorization_token.clone(), timeout) {
        Ok(client) => Ok(client),
        Err(e) => Err(WorkerStartError::HttpClient(e)),
    }
}

} // verus!
