use zero2prod::routes::admin::dashboard::{admin_dashboard, DashboardAnswer};
use zero2prod::pages::{
    admin_dashboard_page, login_page, newsletter_form_page, notifications_html, reset_password_page, FlashLevel, Notification,
    DASHBOARD_PAGE_HEAD, LOGIN_PAGE_HEAD, LOGIN_PAGE_TAIL,
};

fn note(level: FlashLevel, content: &str) -> Notification {
    Notification { level, content: content.to_string() }
}

#[test]
fn notifications_are_paragraphs_in_order() {
    let ms = vec![note(FlashLevel::Error, "first"), note(FlashLevel::Info, "second")];
    assert_eq!(notifications_html(&ms, false), "<p><i>first</i></p>\n<p><i>second</i></p>\n");
    assert_eq!(notifications_html(&Vec::new(), true), "");
}

#[test]
fn debug_notifications_can_be_left_out() {
    let ms = vec![note(FlashLevel::Debug, "hidden"), note(FlashLevel::Warning, "shown")];
    assert_eq!(notifications_html(&ms, true), "<p><i>shown</i></p>\n");
    assert_eq!(notifications_html(&ms, false), "<p><i>hidden</i></p>\n<p><i>shown</i></p>\n");
}

#[test]
fn the_login_page_shows_its_errors_above_the_form() {
    let page = login_page(&vec![note(FlashLevel::Error, "Authentication failed."), note(FlashLevel::Debug, "x")]);
    assert_eq!(page, format!("{}<p><i>Authentication failed.</i></p>\n{}", LOGIN_PAGE_HEAD, LOGIN_PAGE_TAIL));
    assert!(page.starts_with("<!DOCTYPE html>"));
    assert!(page.contains("<form action=\"/login\" method=\"post\">"));
}

#[test]
fn the_dashboard_greets_the_writer() {
    let page = admin_dashboard_page("ursula");
    assert!(page.starts_with(DASHBOARD_PAGE_HEAD));
    assert!(page.contains("<p>Welcome ursula!</p>"));
}

#[test]
fn the_password_form_shows_every_notification() {
    let page = reset_password_page(&vec![note(FlashLevel::Debug, "dbg")]);
    assert!(page.contains("<p><i>dbg</i></p>"));
    assert!(page.contains("name=\"confirm_new_password\""));
}

#[test]
fn the_newsletter_form_carries_its_idempotency_key() {
    let page = newsletter_form_page(&vec![note(FlashLevel::Debug, "dbg")], "key-123");
    assert!(!page.contains("dbg"));
    assert!(page.contains("<input hidden type=\"text\" name=\"idempotency_key\" value=\"key-123\">"));
}

#[test]
fn the_dashboard_answers_by_lookup() {
    assert!(matches!(admin_dashboard(Ok(Some("ursula".to_string()))), DashboardAnswer::Page(p) if p.contains("Welcome ursula!")));
    assert!(matches!(admin_dashboard(Ok(None)), DashboardAnswer::UserNotFound));
    assert!(matches!(admin_dashboard(Err(eyre::Report::msg("db"))), DashboardAnswer::InternalError(_)));
}
