//! The HTML pages of the site, built from plain values.
use vstd::prelude::*;

verus! {

/// The severity of a flash message, from the least to the most severe.
#[derive(Debug, Clone, Copy, PartialEq, Eq, Structural)]
pub enum FlashLevel {
    Debug,
    Info,
    Success,
    Warning,
    Error,
}

/// A flash message handed over from the previous request.
pub struct Notification {
    pub level: FlashLevel,
    pub content: String,
}

/// One notification as a paragraph of its own line.
pub open spec fn notification_line(content: Seq<char>) -> Seq<char> {
    "<p><i>"@ + content + "</i></p>\n"@
}

/// The paragraphs of the notifications in order; with `skip_debug`, those of level
/// `Debug` are left out.
pub open spec fn notifications_text(notifications: Seq<Notification>, skip_debug: bool) -> Seq<char>
    decreases notifications.len(),
{
    if notifications.len() == 0 {
        Seq::empty()
    } else {
        let before = notifications_text(notifications.drop_last(), skip_debug);
        let last = notifications.last();
        if skip_debug && last.level == FlashLevel::Debug {
            before
        } else {
            before + notification_line(last.content@)
        }
    }
}

/// The text of the notifications is the paragraphs of those that are shown, in their
/// order: all of them, or with `skip_debug` every one whose level is not `Debug` (`Info`,
/// `Success`, `Warning` and `Error` are always shown).
pub proof fn lemma_shown_notifications(notifications: Seq<Notification>, skip_debug: bool)
    ensures
        notifications_text(notifications, skip_debug) == notifications.filter(
            |n: Notification| !skip_debug || n.level != FlashLevel::Debug,
        ).map_values(|n: Notification| notification_line(n.content@)).flatten(),
    decreases notifications.len(),
{
    let shown = |n: Notification| !skip_debug || n.level != FlashLevel::Debug;
    let line = |n: Notification| notification_line(n.content@);
    if notifications.len() == 0 {
        reveal(Seq::filter);
        assert(notifications.filter(shown).map_values(line) =~= Seq::<Seq<char>>::empty());
        assert(Seq::<Seq<char>>::empty().flatten() =~= Seq::<char>::empty());
    } else {
        let before = notifications.drop_last();
        let last = notifications.last();
        lemma_shown_notifications(before, skip_debug);
        assert(before.push(last) =~= notifications);
        before.lemma_filter_push(last, shown);
        let kept = before.filter(shown);
        if shown(last) {
            assert(kept.push(last).map_values(line) =~= kept.map_values(line).push(line(last)));
            kept.map_values(line).lemma_flatten_push(line(last));
        }
    }
}

/// The notifications as HTML paragraphs, one per line; with `skip_debug`, those of level
/// `Debug` are left out.
pub fn notifications_html(notifications: &Vec<Notification>, skip_debug: bool) -> (r: String)
    ensures
        r@ == notifications_text(notifications@, skip_debug),
{
    let mut html = String::new();
    let n = notifications.len();
    for i in 0..n
        invariant
            n == notifications@.len(),
            html@ == notifications_text(notifications@.take(i as int), skip_debug),
    {
        proof {
            assert(notifications@.take(i + 1).drop_last() =~= notifications@.take(i as int));
        }
        let m = &notifications[i];
        let skipped = skip_debug && m.level == FlashLevel::Debug;
        if !skipped {
            html.append("<p><i>");
            html.append(m.content.as_str());
            html.append("</i></p>\n");
        }
    }
    proof {
        assert(notifications@.take(n as int) =~= notifications@);
    }
    html
}

/// The login page up to its notifications.
pub const LOGIN_PAGE_HEAD: &'static str = r#"<!DOCTYPE html>
<html lang="en">

<head>
    <meta http-equiv="content-type" content="text/html; charset=utf-8">
    <title>Login</title>
</head>

<body>
    "#;

/// The login page after its notifications.
pub const LOGIN_PAGE_TAIL: &'static str = r#"
    <form action="/login" method="post">
        <label>Username
            <input type="text" placeholder="Enter Username" name="username">
        </label>
        <label>Password
            <input type="password" name="password">
        </label>
        <button type="submit">Login</button>
    </form>
</body>

</html>
"#;

/// The admin dashboard up to the user name.
pub const DASHBOARD_PAGE_HEAD: &'static str = r#"<!DOCTYPE html>
<html lang="en">
<head>
<meta http-equiv="content-type" content="text/html; charset=utf-8">
<title>Admin dashboard</title>
</head>
<body>
<p>Welcome "#;

/// The admin dashboard after the user name.
pub const DASHBOARD_PAGE_TAIL: &'static str = r#"!</p>
<p>Available actions:</p>
<ol>
    <li><a href="/admin/reset_password">Change password</a></li>
    <li>
        <form name="logoutForm" action="/admin/logout" method="post">
            <input type="submit" value="Logout">
        </form>
    </li>
    <li><a href="/admin/newsletters">Post Newsletter</a></li>
</ol>
</body>
</html>"#;

/// The password change form up to its notifications.
pub const RESET_PASSWORD_PAGE_HEAD: &'static str = r#"<!DOCTYPE html>
<html lang="en">
<head>
<meta http-equiv="content-type" content="text/html; charset=utf-8">
<title>Change Password</title>
</head>
<body>
"#;

/// The password change form after its notifications.
pub const RESET_PASSWORD_PAGE_TAIL: &'static str = r#"
<form action="/admin/reset_password" method="post">
<label>Current password
<input
type="password"
placeholder="Enter current password"
name="old_password"
>
</label>
<br>
<label>New password
<input
type="password"
placeholder="Enter new password"
name="new_password"
>
</label>
<br>
<label>Confirm new password
<input
type="password"
placeholder="Type the new password again"
name="confirm_new_password"
>
</label>
<br>
<button type="submit">Change password</button>
</form>
<p><a href="/admin/dashboard">&lt;- Back</a></p>
</body>
</html>"#;

/// The newsletter form up to its notifications.
pub const NEWSLETTER_PAGE_HEAD: &'static str = r#"<!DOCTYPE html>
<html lang="en">
<head>
<meta http-equiv="content-type" content="text/html; charset=utf-8">
<title>Change Password</title>
</head>
<body>
"#;

/// The newsletter form between its notifications and its idempotency key.
pub const NEWSLETTER_PAGE_MIDDLE: &'static str = r#"
<form action="/admin/newsletters" method="post">
<label>Title
<input
type="text"
placeholder="Enter title"
name="title"
>
<br>
<label>Newsletter Content (Text)
<input
type="text"
placeholder="Enter newsletter content (text)"
name="content_text"
>
<br>
<label>Newsletter Content (Html)
<input
type="text"
placeholder="Enter newsletter content (Html)"
name="content_html"
>
<br>
<input hidden type="text" name="idempotency_key" value=""#;

/// The newsletter form after its idempotency key.
pub const NEWSLETTER_PAGE_TAIL: &'static str = r#"">
<button type="submit">Send newsletter</button>
</form>
<p><a href="/admin/dashboard">&lt;- Back</a></p>
</body>
</html>"#;

/// The login page, with the notifications above `Debug` shown above the form.
pub fn login_page(notifications: &Vec<Notification>) -> (r: String)
    ensures
        r@ == LOGIN_PAGE_HEAD@ + notifications_text(notifications@, true) + LOGIN_PAGE_TAIL@,
{
    let shown = notifications_html(notifications, true);
    let mut page = LOGIN_PAGE_HEAD.to_owned();
    page.append(shown.as_str());
    page.append(LOGIN_PAGE_TAIL);
    page
}

/// The admin dashboard, which greets `username`.
pub fn admin_dashboard_page(username: &str) -> (r: String)
    ensures
        r@ == DASHBOARD_PAGE_HEAD@ + username@ + DASHBOARD_PAGE_TAIL@,
{
    let mut page = DASHBOARD_PAGE_HEAD.to_owned();
    page.append(username);
    page.append(DASHBOARD_PAGE_TAIL);
    page
}

/// The password change form, with every notification shown above it.
pub fn reset_password_page(notifications: &Vec<Notification>) -> (r: String)
    ensures
        r@ == RESET_PASSWORD_PAGE_HEAD@ + notifications_text(notifications@, false) + RESET_PASSWORD_PAGE_TAIL@,
{
    let shown = notifications_html(notifications, false);
    let mut page = RESET_PASSWORD_PAGE_HEAD.to_owned();
    page.append(shown.as_str());
    page.append(RESET_PASSWORD_PAGE_TAIL);
    page
}

/// The newsletter form, with the notifications above `Debug` shown above it and
/// `idempotency_key` in its hidden field.
pub fn newsletter_form_page(notifications: &Vec<Notification>, idempotency_key: &str) -> (r: String)
    ensures
        r@ == NEWSLETTER_PAGE_HEAD@ + notifications_text(notifications@, true) + NEWSLETTER_PAGE_MIDDLE@
            + idempotency_key@ + NEWSLETTER_PAGE_TAIL@,
{
    let shown = notifications_html(notifications, true);
    let mut page = NEWSLETTER_PAGE_HEAD.to_owned();
    page.append(shown.as_str());
    page.append(NEWSLETTER_PAGE_MIDDLE);
    page.append(idempotency_key);
    page.append(NEWSLETTER_PAGE_TAIL);
    page
}

} // verus!
