//! The admin dashboard of the logged-in writer.
use vstd::prelude::*;

use crate::pages::{admin_dashboard_page, DASHBOARD_PAGE_HEAD, DASHBOARD_PAGE_TAIL};

verus! {

/// How a request for the dashboard is answered.
pub enum DashboardAnswer {
    /// "200 OK" with this page.
    Page(String),
    /// "404 Not Found" with the body "User not found": the writer has no credentials.
    UserNotFound,
    /// "500 Internal Server Error": the writer's credentials could not be read.
    InternalError(eyre::Report),
}

/// The dashboard for what looking up the writer's user name gave.
pub fn admin_dashboard(username: Result<Option<String>, eyre::Report>) -> (r: DashboardAnswer)
    ensures
        match username {
            Ok(Some(name)) => r matches DashboardAnswer::Page(page) && page@ == DASHBOARD_PAGE_HEAD@ + name@
                + DASHBOARD_PAGE_TAIL@,
            Ok(None) => r is UserNotFound,
            Err(e) => r matches DashboardAnswer::InternalError(e2) && e2 == e,
        },
{
    match username {
        Ok(Some(name)) => DashboardAnswer::Page(admin_dashboard_page(name.as_str())),
        Ok(None) => DashboardAnswer::UserNotFound,
        Err(e) => DashboardAnswer::InternalError(e),
    }
}

} // verus!
