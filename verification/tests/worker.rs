use std::ops::ControlFlow;

use zero2prod::database::newsletters::NewsletterContent;
use zero2prod::hkt::ArcHKT;
use zero2prod::issue_delivery_worker::{
    pause_after, send_failure_stash, Delivery, DeliveryEvent, DeliveryFailure, IssueDeliveryRecord, Picking, PickingEvent,
    SingleNewsletterPickingAndSendingTaskResult as TaskResult,
};

fn report(m: &str) -> eyre::Report {
    eyre::Report::msg(m.to_string())
}

fn record(email: &str) -> IssueDeliveryRecord {
    IssueDeliveryRecord { newsletter_issue_id: uuid::Uuid::from_u128(1), subscriber_email: email.to_string() }
}

fn acquired(email: &str) -> Delivery<ArcHKT> {
    Delivery::<ArcHKT>::Start
        .step(DeliveryEvent::UnitOfWorkBegun(Ok(())))
        .step(DeliveryEvent::TaskAcquired(Ok(Some(record(email)))))
}

#[test]
fn a_successful_delivery_commits_and_continues() {
    let sending = acquired("ursula@domain.com");
    assert!(matches!(&sending, Delivery::Sending { email, .. } if email.as_str() == "ursula@domain.com"));
    let finalizing = sending.step(DeliveryEvent::EmailSent(Ok(())));
    assert!(matches!(finalizing, Delivery::Finalizing { .. }));
    let committing = finalizing.step(DeliveryEvent::TaskFinalized(Ok(())));
    assert!(matches!(committing, Delivery::Committing { outcome: ControlFlow::Continue(()) }));
    let done = committing.step(DeliveryEvent::Committed(Ok(())));
    assert!(matches!(done, Delivery::Finished { outcome: ControlFlow::Continue(()) }));
}

#[test]
fn an_invalid_address_disables_its_task_and_goes_on() {
    let disabling = acquired("not an address");
    assert!(matches!(&disabling, Delivery::Disabling { record } if record.subscriber_email == "not an address"));
    let committing = disabling.step(DeliveryEvent::TaskDisabled(Err(report("ignored"))));
    assert!(matches!(committing, Delivery::Committing { outcome: ControlFlow::Continue(()) }));
}

#[test]
fn no_task_left_ends_the_issue_after_committing() {
    let committing = Delivery::<ArcHKT>::Start
        .step(DeliveryEvent::UnitOfWorkBegun(Ok(())))
        .step(DeliveryEvent::TaskAcquired(Ok(None)));
    assert!(matches!(committing, Delivery::Committing { outcome: ControlFlow::Break(Ok(())) }));
}

#[test]
fn a_failed_send_schedules_a_retry_and_stops() {
    let retrying = acquired("ursula@domain.com").step(DeliveryEvent::EmailSent(Err(report("timeout"))));
    assert!(matches!(retrying, Delivery::Retrying { .. }));
    let committing = retrying.step(DeliveryEvent::RetryScheduled(Err(report("db down"))));
    match committing {
        Delivery::Committing { outcome: ControlFlow::Break(Err(failure)) } => {
            assert!(matches!(&failure, DeliveryFailure::Send { email, retry_error: Some(_), .. } if email == "ursula@domain.com"));
            assert_eq!(failure.summary().unwrap(), "Failed to send newsletter to: 'ursula@domain.com'");
            let message = format!("{:#}", failure.into_report());
            assert!(message.contains("Failed to send newsletter to: 'ursula@domain.com'"));
        }
        _ => panic!("expected a failed outcome"),
    }
}

#[test]
fn a_failed_commit_overrides_the_outcome() {
    let committing = acquired("ursula@domain.com")
        .step(DeliveryEvent::EmailSent(Ok(())))
        .step(DeliveryEvent::TaskFinalized(Ok(())));
    let done = committing.step(DeliveryEvent::Committed(Err(report("lost connection"))));
    match done {
        Delivery::Finished { outcome: ControlFlow::Break(Err(failure)) } => {
            assert_eq!(failure.summary().unwrap(), "Failed to commit unit of work.");
            assert!(matches!(failure, DeliveryFailure::Commit(_)));
        }
        _ => panic!("expected a failed commit"),
    }
}

#[test]
fn a_failed_begin_finishes_without_committing() {
    let done = Delivery::<ArcHKT>::Start.step(DeliveryEvent::UnitOfWorkBegun(Err(report("no pool"))));
    assert!(matches!(done, Delivery::Finished { outcome: ControlFlow::Break(Err(DeliveryFailure::Begin(_))) }));
}

#[test]
fn a_failed_finalization_names_the_address() {
    let failed = acquired("ursula@domain.com")
        .step(DeliveryEvent::EmailSent(Ok(())))
        .step(DeliveryEvent::TaskFinalized(Err(report("constraint"))));
    match failed {
        Delivery::Committing { outcome: ControlFlow::Break(Err(failure)) } => {
            assert_eq!(failure.summary().unwrap(), "Failed to finalize newsletter task to: 'ursula@domain.com'");
        }
        _ => panic!("expected a failed finalization"),
    }
}

#[test]
fn picking_loads_the_issue_and_runs_deliveries() {
    let id = uuid::Uuid::from_u128(42);
    let loading = Picking::<ArcHKT>::Start
        .step(PickingEvent::UnitOfWorkBegun(Ok(())))
        .step(PickingEvent::IssueAcquired(Ok(Some(id))));
    assert!(matches!(loading, Picking::LoadingContent { issue_id } if issue_id == id));
    let content = NewsletterContent { title: "T".to_string(), text_content: "text".to_string(), html_content: "<p>html</p>".to_string() };
    let delivering = loading.step(PickingEvent::ContentLoaded(Ok(content)));
    match &delivering {
        Picking::Delivering { issue_id, subject, html_content, text_content } => {
            assert_eq!(*issue_id, id);
            assert_eq!(&**subject, "T");
            assert_eq!(&**html_content, "<p>html</p>");
            assert_eq!(&**text_content, "text");
        }
        _ => panic!("expected delivering"),
    }
    let still = delivering.step(PickingEvent::DeliveryEnded(ControlFlow::Continue(())));
    assert!(matches!(still, Picking::Delivering { .. }));
    let done = still.step(PickingEvent::DeliveryEnded(ControlFlow::Break(Ok(()))));
    assert!(matches!(done, Picking::Finished { result: TaskResult::Completed }));
}

#[test]
fn picking_without_issue_finds_nothing() {
    let done = Picking::<ArcHKT>::Start
        .step(PickingEvent::UnitOfWorkBegun(Ok(())))
        .step(PickingEvent::IssueAcquired(Ok(None)));
    assert!(matches!(done, Picking::Finished { result: TaskResult::NothingFound }));
}

#[test]
fn a_failed_delivery_ends_picking_with_an_error() {
    let delivering = Picking::<ArcHKT>::Start
        .step(PickingEvent::UnitOfWorkBegun(Ok(())))
        .step(PickingEvent::IssueAcquired(Ok(Some(uuid::Uuid::nil()))))
        .step(PickingEvent::ContentLoaded(Ok(NewsletterContent {
            title: String::new(),
            text_content: String::new(),
            html_content: String::new(),
        })));
    let done = delivering.step(PickingEvent::DeliveryEnded(ControlFlow::Break(Err(DeliveryFailure::Acquire(report("x"))))));
    assert!(matches!(done, Picking::Finished { result: TaskResult::Error(_) }));
}

#[test]
fn the_worker_pauses_by_outcome() {
    assert_eq!(pause_after(&TaskResult::Completed), None);
    assert_eq!(pause_after(&TaskResult::NothingFound), Some(10));
    assert_eq!(pause_after(&TaskResult::Error(report("x"))), Some(1));
    let from_err: TaskResult = Err(report("y")).into();
    assert!(matches!(from_err, TaskResult::Error(_)));
    let from_ok: TaskResult = Ok(TaskResult::NothingFound).into();
    assert!(matches!(from_ok, TaskResult::NothingFound));
}

#[test]
fn delivery_failures_become_reports_headed_by_their_summary() {
    let commit = DeliveryFailure::Commit(report("lost")).into_report();
    let texts: Vec<String> = commit.chain().map(|e| e.to_string()).collect();
    assert_eq!(texts, vec!["Failed to commit unit of work.".to_string(), "lost".to_string()]);
    let send = DeliveryFailure::Send {
        email: "ursula@domain.com".to_string(),
        send_error: report("timeout"),
        retry_error: Some(report("queue full")),
    }
    .into_report();
    assert_eq!(send.chain().count(), 1);
    let text = send.to_string();
    assert!(text.starts_with("Failed to send newsletter to: 'ursula@domain.com'"));
    assert!(text.contains("timeout"));
    assert!(text.contains("Failed to schedule task retry."));
}

#[test]
fn a_failed_send_stashes_the_failed_retry_then_the_send_error() {
    let (summary, retried, send_error) =
        send_failure_stash("ursula@domain.com".to_string(), report("timeout"), Some(report("queue full")));
    assert_eq!(summary, "Failed to send newsletter to: 'ursula@domain.com'");
    let retried: Vec<String> = retried.err().unwrap().chain().map(|e| e.to_string()).collect();
    assert_eq!(retried, vec!["Failed to schedule task retry.".to_string(), "queue full".to_string()]);
    assert_eq!(send_error.to_string(), "timeout");
    let (_, no_retry, _) = send_failure_stash("a@domain.com".to_string(), report("timeout"), None);
    assert!(no_retry.is_ok());
}
