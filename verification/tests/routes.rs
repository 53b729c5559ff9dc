use std::sync::Arc;

use zero2prod::authentication::{AuthenticationFailure, NewsletterWritersAuthenticationError, UnexpectedAuthenticationError};
use zero2prod::database::issue_delivery_queue::EnqueueDeliveryTaskResult;
use zero2prod::database::persistence::{HeaderPairRecord, SaveResponseBodyError, SavedResponseBody};
use zero2prod::database::subscriptions_confirm::{
    confirmation_update_outcome, GetSubscriberIdOfConfirmationTokenError, UpdateConfirmationStatusOfSubscriberIdError,
};
use zero2prod::database::unit_of_work::CommitError;
use zero2prod::hkt::{ArcHKT, K1};
use zero2prod::idempotency::IdempotencyKeyError;
use zero2prod::pages::FlashLevel;
use zero2prod::routes::admin::newsletter::{
    error_flash, BodyData, Content, FormData, PublishAnswer, PublishFailure, Publishing, PublishingEvent, ERROR_MESSAGE,
    SUCCESS_MESSAGE,
};
use zero2prod::routes::admin::password::{FormData as ResetForm, PasswordReset, PasswordResetAnswer, PasswordResetEvent};
use zero2prod::routes::login::{login_response, LoginError, LoginUnexpectedError};
use zero2prod::routes::newsletter::post::{
    BodyData as PostBody, Content as PostContent, PostAnswer, Posting, PostingEvent, PublishNewsletterError,
    UnexpectedPublishError,
};
use zero2prod::routes::subscriptions::{confirmation_email, SubscribeError, Subscribing, SubscribingEvent};
use zero2prod::routes::subscriptions_confirm::{ConfirmSubscriptionTokenError, Confirming, ConfirmingEvent, Parameters};
use zero2prod::routes::SubscribeFormData;

fn report(m: &str) -> eyre::Report {
    eyre::Report::msg(m.to_string())
}

#[test]
fn login_failures_answer_see_other_with_their_message() {
    let refused = LoginError::from(NewsletterWritersAuthenticationError::Authentication(AuthenticationFailure::IncorrectPassword));
    assert_eq!(refused.status_code(), 303);
    assert_eq!(refused.message(), "Authentication failed.");
    assert_eq!(refused.location(), "/login?error=Authentication%20failed.");
    let task = LoginError::from(NewsletterWritersAuthenticationError::Unexpected(UnexpectedAuthenticationError::ValidationTaskFailed));
    assert!(matches!(task, LoginError::Unexpected(LoginUnexpectedError::Authentication(_))));
    assert_eq!(task.message(), "Failed to spawn a new thread to validate password.");
    let session = LoginError::Unexpected(LoginUnexpectedError::Session(report("cookie too large")));
    assert_eq!(session.message(), "cookie too large");
}

#[test]
fn login_goes_to_the_dashboard_or_back_with_a_flash() {
    let ok = login_response(&Ok(()));
    assert_eq!(ok.location, "/admin/dashboard");
    assert!(ok.flash_error.is_none());
    let failed = login_response(&Err(LoginError::Authentication(AuthenticationFailure::UsernameNotFound)));
    assert_eq!(failed.location, "/login");
    assert_eq!(failed.flash_error.unwrap(), "Authentication failed.");
}

fn body(key: &str) -> BodyData {
    BodyData::from(FormData {
        title: "Issue".to_string(),
        content_html: "<p>hi</p>".to_string(),
        content_text: "hi".to_string(),
        idempotency_key: key.to_string(),
    })
}

#[test]
fn admin_form_groups_its_content() {
    let b = body("k");
    assert_eq!(b.title, "Issue");
    assert_eq!(b.content.html, "<p>hi</p>");
    assert_eq!(b.content.text, "hi");
    assert_eq!(b.idempotency_key, "k");
}

#[test]
fn publishing_saves_and_commits_its_answer() {
    let user = uuid::Uuid::from_u128(5);
    let state = Publishing::start(user, body("key-1"))
        .step(PublishingEvent::UserLoaded(Ok(Some("ursula".to_string()))));
    assert!(matches!(&state, Publishing::Beginning { key, .. } if key.as_str() == "key-1"));
    let state = state
        .step(PublishingEvent::UnitOfWorkBegun(Ok(())))
        .step(PublishingEvent::SavedResponseLoaded(Ok(None)));
    assert!(matches!(&state, Publishing::Inserting { title, content, .. } if title == "Issue" && content.text == "hi"));
    let issue = uuid::Uuid::from_u128(9);
    let state = state.step(PublishingEvent::IssueInserted(Ok(issue)));
    assert!(matches!(&state, Publishing::Enqueuing { issue_id, .. } if *issue_id == issue));
    let state = state.step(PublishingEvent::TasksEnqueued(Ok(EnqueueDeliveryTaskResult::Enqueued)));
    match &state {
        Publishing::Saving { response, .. } => {
            assert_eq!(response.response_status_code, 303);
            assert_eq!(response.response_headers.len(), 1);
            assert_eq!(response.response_headers[0].name, "location");
            assert_eq!(response.response_headers[0].value, b"/admin/newsletters".to_vec());
            assert!(response.response_body.is_empty());
        }
        _ => panic!("expected saving"),
    }
    let state = state.step(PublishingEvent::ResponseSaved(Ok(()))).step(PublishingEvent::Committed(Ok(())));
    assert!(matches!(state, Publishing::Finished { answer: PublishAnswer::Published { response } } if response.response_status_code == 303));
}

fn saved(code: u16) -> SavedResponseBody {
    SavedResponseBody {
        response_status_code: code,
        response_headers: vec![HeaderPairRecord { name: "location".to_string(), value: b"/x".to_vec() }],
        response_body: vec![1, 2, 3],
    }
}

#[test]
fn a_saved_response_is_replayed_instead_of_publishing_again() {
    let state = Publishing::start(uuid::Uuid::nil(), body("key-1"))
        .step(PublishingEvent::UserLoaded(Ok(Some("ursula".to_string()))))
        .step(PublishingEvent::UnitOfWorkBegun(Ok(())))
        .step(PublishingEvent::SavedResponseLoaded(Ok(Some(saved(303)))));
    match state {
        Publishing::Finished { answer: PublishAnswer::Replay { saved } } => {
            assert_eq!(saved.response_status_code, 303);
            assert_eq!(saved.response_headers.len(), 1);
            assert_eq!(saved.response_headers[0].name, "location");
            assert_eq!(saved.response_body, vec![1, 2, 3]);
        }
        _ => panic!("expected a replay"),
    }
    let invalid = Publishing::start(uuid::Uuid::nil(), body("key-1"))
        .step(PublishingEvent::UserLoaded(Ok(Some("ursula".to_string()))))
        .step(PublishingEvent::UnitOfWorkBegun(Ok(())))
        .step(PublishingEvent::SavedResponseLoaded(Ok(Some(saved(42)))));
    assert!(matches!(invalid, Publishing::Finished { answer: PublishAnswer::InvalidSavedStatus(42) }));
}

#[test]
fn publishing_refusals_and_failures() {
    let bad_key = Publishing::start(uuid::Uuid::nil(), body("")).step(PublishingEvent::UserLoaded(Ok(Some("u".to_string()))));
    assert!(matches!(bad_key, Publishing::Finished { answer: PublishAnswer::BadRequest(IdempotencyKeyError::Empty) }));
    let no_user = Publishing::start(uuid::Uuid::nil(), body("k")).step(PublishingEvent::UserLoaded(Ok(None)));
    assert!(matches!(
        no_user,
        Publishing::Finished { answer: PublishAnswer::RedirectWithError { cause: PublishFailure::UserNotFound, error_flashes: 1 } }
    ));
    let lookup = Publishing::start(uuid::Uuid::nil(), body("k")).step(PublishingEvent::UserLoaded(Err(report("db"))));
    assert!(matches!(lookup, Publishing::Finished { answer: PublishAnswer::InternalError(PublishFailure::Lookup(_)) }));
    let saving = Publishing::start(uuid::Uuid::nil(), body("k"))
        .step(PublishingEvent::UserLoaded(Ok(Some("u".to_string()))))
        .step(PublishingEvent::UnitOfWorkBegun(Ok(())))
        .step(PublishingEvent::SavedResponseLoaded(Ok(None)))
        .step(PublishingEvent::IssueInserted(Ok(uuid::Uuid::nil())))
        .step(PublishingEvent::TasksEnqueued(Ok(EnqueueDeliveryTaskResult::Unchanged)));
    let failed_save = saving.step(PublishingEvent::ResponseSaved(Err(SaveResponseBodyError::Unexpected(report("disk")))));
    assert!(matches!(failed_save, Publishing::Finished { answer: PublishAnswer::RedirectWithError { error_flashes: 2, .. } }));
    let committing = Publishing::Committing { response: saved(303) };
    let failed_commit = committing.step(PublishingEvent::Committed(Err(CommitError::Unexpected(report("gone")))));
    assert!(matches!(
        failed_commit,
        Publishing::Finished { answer: PublishAnswer::RedirectWithError { cause: PublishFailure::Commit(_), error_flashes: 1 } }
    ));
}

#[test]
fn publishing_messages() {
    assert_eq!(SUCCESS_MESSAGE, "Newsletter has been successfully enqueued & will be sent to subscribers shortly.");
    assert_eq!(error_flash(), format!("<p><i>{}</i></p>", ERROR_MESSAGE));
}

fn post_body() -> PostBody {
    PostBody { title: "T".to_string(), content: PostContent { html: "<b>h</b>".to_string(), text: "t".to_string() } }
}

#[test]
fn posting_sends_to_valid_addresses_only() {
    let sending = Posting::<ArcHKT>::LookingUpUser { body: post_body() }
        .step(PostingEvent::UserLoaded(Ok("ursula".to_string())))
        .step(PostingEvent::AddressesLoaded(Ok(vec![
            "a@domain.com".to_string(),
            "broken".to_string(),
            "b@domain.com".to_string(),
        ])));
    match &sending {
        Posting::Sending { recipients, subject, .. } => {
            assert_eq!(recipients.len(), 2);
            assert_eq!(recipients[0].as_str(), "a@domain.com");
            assert_eq!(recipients[1].as_str(), "b@domain.com");
            assert_eq!(&**subject, "T");
        }
        _ => panic!("expected sending"),
    }
    let failed = sending.step(PostingEvent::Sent(vec![Ok(()), Err(report("smtp"))]));
    match failed {
        Posting::Finished { answer: PostAnswer::Failed(PublishNewsletterError::Unexpected(UnexpectedPublishError::Sending(v))) } => {
            assert_eq!(v.len(), 1);
            assert!(format!("{:#}", v[0]).contains("Failed to send newsletter to: 'b@domain.com'"));
        }
        _ => panic!("expected a failed send"),
    }
}

#[test]
fn posting_succeeds_when_every_send_does() {
    let sending = Posting::<ArcHKT>::LoadingAddresses { body: post_body() }.step(PostingEvent::AddressesLoaded(Ok(vec!["a@domain.com".to_string()])));
    assert!(matches!(sending.step(PostingEvent::Sent(vec![Ok(())])), Posting::Finished { answer: PostAnswer::Posted }));
}

#[test]
fn refused_writers_are_challenged_for_basic_credentials() {
    let refused = PublishNewsletterError::from(NewsletterWritersAuthenticationError::Authentication(AuthenticationFailure::UsernameNotFound));
    assert_eq!(refused.status_code(), 401);
    assert_eq!(refused.www_authenticate(), Some("Basic realm=\"publish\""));
    let other = PublishNewsletterError::Unexpected(UnexpectedPublishError::Query(report("x")));
    assert_eq!(other.status_code(), 500);
    assert_eq!(other.www_authenticate(), None);
}

fn subscribe_form(name: &str, email: &str) -> SubscribeFormData {
    SubscribeFormData { name: name.to_string(), email: email.to_string() }
}

#[test]
fn subscribing_records_then_mails_then_commits() {
    let state = Subscribing::<ArcHKT>::Beginning { form: subscribe_form("Ursula", "ursula@domain.com") }
        .step(SubscribingEvent::UnitOfWorkBegun(Ok(())), "https://app.example");
    assert!(matches!(&state, Subscribing::Inserting { subscriber } if subscriber.name.as_str() == "Ursula"));
    let state = state
        .step(SubscribingEvent::SubscriberInserted(Ok(uuid::Uuid::nil())), "https://app.example")
        .step(SubscribingEvent::TokenStored(Ok("tok123".to_string())), "https://app.example");
    match &state {
        Subscribing::Sending { recipient, email } => {
            assert_eq!(recipient.as_str(), "ursula@domain.com");
            assert_eq!(email.subject, "Welcome!");
            assert!(email.text_content.contains("https://app.example/subscriptions/confirm?subscription_token=tok123"));
        }
        _ => panic!("expected sending"),
    }
    let done = state
        .step(SubscribingEvent::EmailSent(Ok(())), "https://app.example")
        .step(SubscribingEvent::Committed(Ok(())), "https://app.example");
    assert!(matches!(done, Subscribing::Finished { result: Ok(()) }));
}

#[test]
fn a_refused_form_is_a_bad_request() {
    let done = Subscribing::<ArcHKT>::Beginning { form: subscribe_form("", "ursula@domain.com") }
        .step(SubscribingEvent::UnitOfWorkBegun(Ok(())), "https://app.example");
    match done {
        Subscribing::Finished { result: Err(e) } => {
            assert_eq!(e.status_code(), 400);
            assert_eq!(e.message(), "Parsing new subscriber failed: Name: Name is empty or contains whitespace.");
        }
        _ => panic!("expected a refusal"),
    }
    let failed = Subscribing::<ArcHKT>::Committing.step(SubscribingEvent::Committed(Err(report("x"))), "u");
    match failed {
        Subscribing::Finished { result: Err(e) } => {
            assert_eq!(e.status_code(), 500);
            assert!(matches!(e, SubscribeError::Unexpected(_)));
            assert_eq!(e.message(), "Failed to commit new subscription transaction.");
        }
        _ => panic!("expected a failure"),
    }
}

#[test]
fn the_confirmation_email_links_to_the_token() {
    let email = confirmation_email("http://127.0.0.1", "abc");
    assert_eq!(
        email.html_content,
        "Welcome to our newsletter!<br />Click <a href=\"http://127.0.0.1/subscriptions/confirm?subscription_token=abc\">here</a> to confirm your subscription."
    );
    assert_eq!(
        email.text_content,
        "Welcome to our newsletter!\nVisit http://127.0.0.1/subscriptions/confirm?subscription_token=abc to confirm your subscription."
    );
}

#[test]
fn confirming_a_token() {
    let token = uuid::Uuid::from_u128(77);
    let state = Confirming::start(&Parameters { subscription_token: token.to_string() });
    assert!(matches!(state, Confirming::LookingUp { token: t } if t == token));
    let state = state.step(ConfirmingEvent::SubscriberFound(Ok(uuid::Uuid::nil())));
    assert!(matches!(state.step(ConfirmingEvent::StatusUpdated(Ok(()))), Confirming::Finished { result: Ok(()) }));
}

#[test]
fn confirming_refusals() {
    let garbage = Confirming::start(&Parameters { subscription_token: "not-a-uuid".to_string() });
    match garbage {
        Confirming::Finished { result: Err(e) } => {
            assert!(matches!(e, ConfirmSubscriptionTokenError::Unauthorized));
            assert_eq!(e.status_code(), 401);
        }
        _ => panic!("expected unauthorized"),
    }
    let unknown = Confirming::LookingUp { token: uuid::Uuid::nil() }.step(ConfirmingEvent::SubscriberFound(Err(
        GetSubscriberIdOfConfirmationTokenError::TokenNotFound { subscription_token: uuid::Uuid::nil() },
    )));
    assert!(matches!(unknown, Confirming::Finished { result: Err(ConfirmSubscriptionTokenError::Unauthorized) }));
    let abnormal = confirmation_update_outcome(2).err().unwrap();
    assert_eq!(abnormal.message(), "Updated row count is not one: 2");
    assert!(matches!(abnormal, UpdateConfirmationStatusOfSubscriberIdError::AbnormalUpdatedRowCount(2)));
    let failed = Confirming::Updating { subscriber_id: uuid::Uuid::nil() }.step(ConfirmingEvent::StatusUpdated(Err(abnormal)));
    match failed {
        Confirming::Finished { result: Err(e) } => assert_eq!(e.status_code(), 500),
        _ => panic!("expected a failure"),
    }
    assert!(confirmation_update_outcome(1).is_ok());
}

#[test]
fn password_reset_flows() {
    let form = || ResetForm {
        old_password: "old".to_string(),
        new_password: "short".to_string(),
        confirm_new_password: "short".to_string(),
    };
    let not_found = PasswordReset::LookingUp { form: form() }.step(PasswordResetEvent::CredentialsLoaded(Ok(None)));
    assert!(matches!(not_found, PasswordReset::Finished { answer: PasswordResetAnswer::UserNotFound }));
    let too_short = PasswordReset::LookingUp { form: form() }.step(PasswordResetEvent::CredentialsLoaded(Ok(Some("hash".to_string()))));
    match too_short {
        PasswordReset::Finished { answer: PasswordResetAnswer::Redirect { level, message } } => {
            assert_eq!(level, FlashLevel::Error);
            assert_eq!(message, "Password length must be between 12 and 129 characters in graphemes, but was 5.");
        }
        _ => panic!("expected a refusal"),
    }
    let updated = PasswordReset::Updating { hash: "h".to_string() }.step(PasswordResetEvent::PasswordUpdated(Ok(())));
    match updated {
        PasswordReset::Finished { answer: PasswordResetAnswer::Redirect { level, message } } => {
            assert_eq!(level, FlashLevel::Info);
            assert_eq!(message, "Resetted Password successfully!");
        }
        _ => panic!("expected success"),
    }
}

#[test]
fn shared_strings_are_read_through() {
    let k: K1<ArcHKT, str> = K1::newtype(Arc::<str>::from("shared"));
    assert_eq!(&*k.clone(), "shared");
}

fn chain(report: &eyre::Report) -> Vec<String> {
    report.chain().map(|e| e.to_string()).collect()
}

#[test]
fn a_failed_subscription_step_heads_its_report() {
    let inserting = Subscribing::<ArcHKT>::Beginning { form: subscribe_form("Ursula", "ursula@domain.com") }
        .step(SubscribingEvent::UnitOfWorkBegun(Ok(())), "https://app.example");
    let failed = inserting.step(SubscribingEvent::SubscriberInserted(Err(report("db down"))), "https://app.example");
    match failed {
        Subscribing::Finished { result: Err(SubscribeError::Unexpected(r)) } => {
            assert_eq!(chain(&r), vec!["Failed to insert new subscriber to database.".to_string(), "db down".to_string()]);
        }
        _ => panic!("expected an unexpected error"),
    }
}

#[test]
fn a_failed_status_update_report_carries_its_message() {
    let failed = Confirming::Updating { subscriber_id: uuid::Uuid::nil() }
        .step(ConfirmingEvent::StatusUpdated(Err(UpdateConfirmationStatusOfSubscriberIdError::AbnormalUpdatedRowCount(2))));
    match failed {
        Confirming::Finished { result: Err(ConfirmSubscriptionTokenError::Unexpected(r)) } => {
            assert_eq!(chain(&r), vec!["Updated row count is not one: 2".to_string()]);
        }
        _ => panic!("expected an unexpected error"),
    }
}

#[test]
fn each_failed_send_is_reported_under_its_recipient() {
    let recipients: Vec<zero2prod::domain::SubscriberEmail<ArcHKT>> =
        zero2prod::routes::newsletter::recipients(&vec!["a@domain.com".to_string(), "b@domain.com".to_string(), "c@domain.com".to_string()]);
    let failures = zero2prod::routes::newsletter::send_failures(&recipients, vec![Err(report("x")), Ok(()), Err(report("z"))]);
    assert_eq!(failures.len(), 2);
    assert_eq!(chain(&failures[0]), vec!["Failed to send newsletter to: 'a@domain.com'".to_string(), "x".to_string()]);
    assert_eq!(chain(&failures[1]), vec!["Failed to send newsletter to: 'c@domain.com'".to_string(), "z".to_string()]);
}
