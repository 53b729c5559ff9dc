//! Publishing a newsletter issue from the admin form, once per idempotency key.
use vstd::prelude::*;

use crate::database::issue_delivery_queue::{EnqueueDeliveryTaskError, EnqueueDeliveryTaskResult};
use crate::database::newsletters::InsertNewsletterIssueError;
use crate::database::persistence::{GetSavedResponseBodyError, HeaderPairRecord, SaveResponseBodyError, SavedResponseBody};
use crate::database::unit_of_work::{BeginError, CommitError};
use crate::idempotency::{idempotency_key_violation, IdempotencyKey, IdempotencyKeyError};
use crate::status::status_code_from_u16;

verus! {

/// The two renderings of an issue's content.
pub struct Content {
    pub html: String,
    pub text: String,
}

/// A newsletter issue to publish, with the key of its submission.
pub struct BodyData {
    pub title: String,
    pub content: Content,
    pub idempotency_key: String,
}

/// The admin form as submitted.
pub struct FormData {
    pub title: String,
    pub content_html: String,
    pub content_text: String,
    pub idempotency_key: String,
}

impl From<FormData> for BodyData {
    /// The same fields, the two contents grouped.
    fn from(value: FormData) -> (r: BodyData) {
        BodyData {
            title: value.title,
            content: Content { html: value.content_html, text: value.content_text },
            idempotency_key: value.idempotency_key,
        }
    }
}

impl vstd::std_specs::convert::FromSpecImpl<FormData> for BodyData {
    open spec fn obeys_from_spec() -> bool {
        true
    }

    open spec fn from_spec(value: FormData) -> BodyData {
        BodyData {
            title: value.title,
            content: Content { html: value.content_html, text: value.content_text },
            idempotency_key: value.idempotency_key,
        }
    }
}

/// Flashed when an issue was published, or its earlier publication replayed.
pub const SUCCESS_MESSAGE: &'static str = "Newsletter has been successfully enqueued & will be sent to subscribers shortly.";

/// Flashed, as a paragraph, when publishing failed.
pub const ERROR_MESSAGE: &'static str = "One or more errors occurred trying to post the newsletter.";

/// The error flash: `ERROR_MESSAGE` as an italic paragraph.
pub fn error_flash() -> (r: String)
    ensures
        r@ == "<p><i>"@ + ERROR_MESSAGE@ + "</i></p>"@,
{
    let mut m = "<p><i>".to_owned();
    m.append(ERROR_MESSAGE);
    m.append("</i></p>");
    m
}

/// Where the admin form lives, and where publishing redirects to.
pub const NEWSLETTERS_PATH: &'static str = "/admin/newsletters";

/// The response that a publication answers and saves for its key: "303 See Other" to
/// the admin form, with the `location` header alone and an empty body.
pub open spec fn published_response(r: SavedResponseBody) -> bool {
    &&& r.response_status_code == 303
    &&& r.response_headers@.len() == 1
    &&& r.response_headers@[0].name@ == "location"@
    &&& r.response_headers@[0].value@ == vstd::utf8::encode_utf8(NEWSLETTERS_PATH@)
    &&& r.response_body@.len() == 0
}

/// What a publication saves for its key can be replayed: its status is a status code, so
/// a second submission of the key is answered with it rather than refused.
pub proof fn lemma_published_response_replays(r: SavedResponseBody)
    requires
        published_response(r),
    ensures
        100 <= r.response_status_code < 1000,
{
}

/// The response a publication answers and saves for its key.
pub fn published_response_record() -> (r: SavedResponseBody)
    ensures
        published_response(r),
{
    let location = HeaderPairRecord {
        name: "location".to_owned(),
        value: vstd::slice::slice_to_vec(NEWSLETTERS_PATH.as_bytes()),
    };
    let mut headers: Vec<HeaderPairRecord> = Vec::new();
    headers.push(location);
    SavedResponseBody { response_status_code: 303, response_headers: headers, response_body: Vec::new() }
}

/// Why publishing failed.
#[derive(Debug)]
pub enum PublishFailure {
    /// Reading the writer's credentials failed.
    Lookup(eyre::Report),
    /// "User not found": the logged-in writer has no credentials.
    UserNotFound,
    Begin(BeginError),
    SavedResponse(GetSavedResponseBodyError),
    Insert(InsertNewsletterIssueError),
    Enqueue(EnqueueDeliveryTaskError),
    Save(SaveResponseBodyError),
    Commit(CommitError),
}

/// How a publication is answered.
pub enum PublishAnswer {
    /// "500 Internal Server Error", without a flash.
    InternalError(PublishFailure),
    /// "400 Bad Request" with the key's refusal as the body.
    BadRequest(IdempotencyKeyError),
    /// `error_flash()` flashed `error_flashes` times, then "303 See Other" to the admin
    /// form.
    RedirectWithError { cause: PublishFailure, error_flashes: u8 },
    /// `SUCCESS_MESSAGE` flashed, then the response saved for the key replayed as it was
    /// saved; its status code is a valid one.
    Replay { saved: SavedResponseBody },
    /// `SUCCESS_MESSAGE` flashed, but the response saved for the key has this status,
    /// which no status code is: "500 Internal Server Error".
    InvalidSavedStatus(u16),
    /// `SUCCESS_MESSAGE` flashed, then `response`, which was saved for the key.
    Published { response: SavedResponseBody },
}

/// Where publishing stands. Each state but `Finished` names the outside work to do next;
/// `step` takes what it gave. The work from `Beginning` on runs in one unit of work, which
/// only `Committing` commits.
pub enum Publishing {
    /// Load the user name of writer `user_id`.
    LookingUpUser { user_id: uuid::Uuid, body: BodyData },
    /// Begin a unit of work.
    Beginning { user_id: uuid::Uuid, key: IdempotencyKey, title: String, content: Content },
    /// Load the response saved for `key` and `user_id`, if any.
    LoadingSavedResponse { user_id: uuid::Uuid, key: IdempotencyKey, title: String, content: Content },
    /// Insert the issue.
    Inserting { user_id: uuid::Uuid, key: IdempotencyKey, title: String, content: Content },
    /// Enqueue a delivery task of issue `issue_id` for every confirmed subscriber.
    Enqueuing { user_id: uuid::Uuid, key: IdempotencyKey, issue_id: uuid::Uuid },
    /// Save `response` for `key` and `user_id`.
    Saving { user_id: uuid::Uuid, key: IdempotencyKey, response: SavedResponseBody },
    /// Commit the unit of work; `response` then answers.
    Committing { response: SavedResponseBody },
    /// Publishing is over.
    Finished { answer: PublishAnswer },
}

/// What the outside work that a `Publishing` state names gave.
pub enum PublishingEvent {
    /// The writer's user name, `None` when the writer has no credentials.
    UserLoaded(Result<Option<String>, eyre::Report>),
    UnitOfWorkBegun(Result<(), BeginError>),
    SavedResponseLoaded(Result<Option<SavedResponseBody>, GetSavedResponseBodyError>),
    IssueInserted(Result<uuid::Uuid, InsertNewsletterIssueError>),
    TasksEnqueued(Result<EnqueueDeliveryTaskResult, EnqueueDeliveryTaskError>),
    ResponseSaved(Result<(), SaveResponseBodyError>),
    Committed(Result<(), CommitError>),
}

/// `event` answers the work that `state` names.
pub open spec fn publishing_answers(state: Publishing, event: PublishingEvent) -> bool {
    match state {
        Publishing::LookingUpUser { .. } => event is UserLoaded,
        Publishing::Beginning { .. } => event is UnitOfWorkBegun,
        Publishing::LoadingSavedResponse { .. } => event is SavedResponseLoaded,
        Publishing::Inserting { .. } => event is IssueInserted,
        Publishing::Enqueuing { .. } => event is TasksEnqueued,
        Publishing::Saving { .. } => event is ResponseSaved,
        Publishing::Committing { .. } => event is Committed,
        Publishing::Finished { .. } => false,
    }
}

/// `r` ends publishing by redirecting to the admin form with `flashes` error flashes.
pub open spec fn redirects_with_error(r: Publishing, flashes: u8) -> bool {
    r matches Publishing::Finished { answer: PublishAnswer::RedirectWithError { error_flashes, .. } } && error_flashes == flashes
}

impl Publishing {
    /// Publishing of `body` by writer `user_id`, before any work.
    pub fn start(user_id: uuid::Uuid, body: BodyData) -> (r: Publishing)
        ensures
            r == (Publishing::LookingUpUser { user_id, body }),
    {
        Publishing::LookingUpUser { user_id, body }
    }

    /// The state after `event` answered the work that `self` names. The key is read once
    /// the writer is known; a response already saved for it is replayed and nothing is
    /// published again; otherwise the issue is inserted, its deliveries enqueued, the
    /// answer saved for the key, and all of it committed at once.
    pub fn step(self, event: PublishingEvent) -> (r: Publishing)
        requires
            publishing_answers(self, event),
        ensures
            r matches Publishing::Finished { answer: PublishAnswer::Published { .. } } ==> self is Committing,
            match (self, event) {
                (Publishing::LookingUpUser { .. }, PublishingEvent::UserLoaded(Err(e))) =>
                    r matches Publishing::Finished { answer: PublishAnswer::InternalError(PublishFailure::Lookup(e2)) } && e2 == e,
                (Publishing::LookingUpUser { .. }, PublishingEvent::UserLoaded(Ok(None))) =>
                    redirects_with_error(r, 1) && r matches Publishing::Finished {
                        answer: PublishAnswer::RedirectWithError { cause: PublishFailure::UserNotFound, .. },
                    },
                (Publishing::LookingUpUser { user_id, body }, PublishingEvent::UserLoaded(Ok(Some(_)))) =>
                    match idempotency_key_violation(body.idempotency_key@) {
                        Some(k) => r == (Publishing::Finished { answer: PublishAnswer::BadRequest(k) }),
                        None => r matches Publishing::Beginning { user_id: u, key, title, content }
                            && u == user_id && key@ == body.idempotency_key@ && title == body.title && content == body.content,
                    },
                (Publishing::Beginning { .. }, PublishingEvent::UnitOfWorkBegun(Err(_))) => redirects_with_error(r, 1),
                (Publishing::Beginning { user_id, key, title, content }, PublishingEvent::UnitOfWorkBegun(Ok(()))) =>
                    r == (Publishing::LoadingSavedResponse { user_id, key, title, content }),
                (Publishing::LoadingSavedResponse { .. }, PublishingEvent::SavedResponseLoaded(Err(_))) => redirects_with_error(r, 1),
                (Publishing::LoadingSavedResponse { .. }, PublishingEvent::SavedResponseLoaded(Ok(Some(saved)))) =>
                    if 100 <= saved.response_status_code < 1000 {
                        r == (Publishing::Finished { answer: PublishAnswer::Replay { saved } })
                    } else {
                        r == (Publishing::Finished { answer: PublishAnswer::InvalidSavedStatus(saved.response_status_code) })
                    },
                (Publishing::LoadingSavedResponse { user_id, key, title, content }, PublishingEvent::SavedResponseLoaded(Ok(None))) =>
                    r == (Publishing::Inserting { user_id, key, title, content }),
                (Publishing::Inserting { .. }, PublishingEvent::IssueInserted(Err(_))) => redirects_with_error(r, 1),
                (Publishing::Inserting { user_id, key, .. }, PublishingEvent::IssueInserted(Ok(issue_id))) =>
                    r == (Publishing::Enqueuing { user_id, key, issue_id }),
                (Publishing::Enqueuing { .. }, PublishingEvent::TasksEnqueued(Err(_))) => redirects_with_error(r, 1),
                (Publishing::Enqueuing { user_id, key, .. }, PublishingEvent::TasksEnqueued(Ok(_))) =>
                    r matches Publishing::Saving { user_id: u, key: k, response } && u == user_id && k == key
                        && published_response(response),
                (Publishing::Saving { .. }, PublishingEvent::ResponseSaved(Err(_))) => redirects_with_error(r, 2),
                (Publishing::Saving { response, .. }, PublishingEvent::ResponseSaved(Ok(()))) =>
                    r == (Publishing::Committing { response }),
                (Publishing::Committing { .. }, PublishingEvent::Committed(Err(_))) => redirects_with_error(r, 1),
                (Publishing::Committing { response }, PublishingEvent::Committed(Ok(()))) =>
                    r == (Publishing::Finished { answer: PublishAnswer::Published { response } }),
                _ => false,
            },
    {
        match (self, event) {
            (Publishing::LookingUpUser { user_id, body }, PublishingEvent::UserLoaded(loaded)) => match loaded {
                Err(e) => Publishing::Finished { answer: PublishAnswer::InternalError(PublishFailure::Lookup(e)) },
                Ok(None) => Publishing::Finished {
                    answer: PublishAnswer::RedirectWithError { cause: PublishFailure::UserNotFound, error_flashes: 1 },
                },
                Ok(Some(_)) => {
                    let BodyData { title, content, idempotency_key } = body;
                    match IdempotencyKey::parse(idempotency_key) {
                        Err(k) => Publishing::Finished { answer: PublishAnswer::BadRequest(k) },
                        Ok(key) => Publishing::Beginning { user_id, key, title, content },
                    }
                },
            },
            (Publishing::Beginning { user_id, key, title, content }, PublishingEvent::UnitOfWorkBegun(begun)) => match begun {
                Err(e) => Publishing::Finished {
                    answer: PublishAnswer::RedirectWithError { cause: PublishFailure::Begin(e), error_flashes: 1 },
                },
                Ok(()) => Publishing::LoadingSavedResponse { user_id, key, title, content },
            },
            (Publishing::LoadingSavedResponse { user_id, key, title, content }, PublishingEvent::SavedResponseLoaded(loaded)) =>
                match loaded {
                    Err(e) => Publishing::Finished {
                        answer: PublishAnswer::RedirectWithError { cause: PublishFailure::SavedResponse(e.into_owned()), error_flashes: 1 },
                    },
                    Ok(Some(saved)) => match status_code_from_u16(saved.response_status_code) {
                        Some(_) => Publishing::Finished { answer: PublishAnswer::Replay { saved } },
                        None => Publishing::Finished { answer: PublishAnswer::InvalidSavedStatus(saved.response_status_code) },
                    },
                    Ok(None) => Publishing::Inserting { user_id, key, title, content },
                },
            (Publishing::Inserting { user_id, key, .. }, PublishingEvent::IssueInserted(inserted)) => match inserted {
                Err(e) => Publishing::Finished {
                    answer: PublishAnswer::RedirectWithError { cause: PublishFailure::Insert(e), error_flashes: 1 },
                },
                Ok(issue_id) => Publishing::Enqueuing { user_id, key, issue_id },
            },
            (Publishing::Enqueuing { user_id, key, .. }, PublishingEvent::TasksEnqueued(enqueued)) => match enqueued {
                Err(e) => Publishing::Finished {
                    answer: PublishAnswer::RedirectWithError { cause: PublishFailure::Enqueue(e), error_flashes: 1 },
                },
                Ok(_) => Publishing::Saving { user_id, key, response: published_response_record() },
            },
            (Publishing::Saving { response, .. }, PublishingEvent::ResponseSaved(saved)) => match saved {
                Err(e) => Publishing::Finished {
                    answer: PublishAnswer::RedirectWithError { cause: PublishFailure::Save(e), error_flashes: 2 },
                },
                Ok(()) => Publishing::Committing { response },
            },
            (Publishing::Committing { response }, PublishingEvent::Committed(committed)) => match committed {
                Err(e) => Publishing::Finished {
                    answer: PublishAnswer::RedirectWithError { cause: PublishFailure::Commit(e), error_flashes: 1 },
                },
                Ok(()) => Publishing::Finished { answer: PublishAnswer::Published { response } },
            },
            (state, _) => state,
        }
    }
}

} // verus!
