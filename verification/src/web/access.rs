//! Who may see the HTML pages, and signing in.
use crate::config::AuthMode;
use crate::error::AppError;
use crate::repo::assets::Asset;
use crate::repo::locations::{Location, LocationInput};
use crate::repo::log::{LogEntry, LogEntryInput};
use crate::repo::tasks::Task;
use crate::text::{has_prefix, starts_with, str_eq};
use vstd::prelude::*;

verus! {

/// The body of the sign-in form.
#[derive(Debug, Clone, Default, PartialEq, Eq)]
pub struct LoginForm {
    pub password: String,
}

/// The sign-in page exists only when authentication is on.
pub fn login_page_allowed(mode: AuthMode) -> (r: Result<(), AppError>)
    ensures
        mode == AuthMode::Password ==> r is Ok,
        mode == AuthMode::Disabled ==> (r matches Err(AppError::BadRequest(m)) && m@ == "auth is disabled"@),
{
    if mode == AuthMode::Disabled {
        return Err(AppError::BadRequest(String::from_str("auth is disabled")));
    }
    Ok(())
}

/// A sign-in succeeds when a password is configured and the given one equals it.
pub fn check_password(expected: &Option<String>, given: &str) -> (r: Result<(), AppError>)
    ensures
        r is Ok <==> (expected matches Some(e) && e@ == given@),
        r is Err ==> r == Err::<(), AppError>(AppError::Unauthorized),
{
    match expected {
        None => Err(AppError::Unauthorized),
        Some(e) => {
            if !str_eq(given, e.as_str()) {
                return Err(AppError::Unauthorized);
            }
            Ok(())
        },
    }
}

/// The value of the signed session cookie that marks a signed-in browser.
pub open spec fn session_marker() -> Seq<char> {
    "authenticated"@
}

/// The pages that need no session: the sign-in pages and static files.
pub open spec fn public_path(path: Seq<char>) -> bool {
    has_prefix(path, "/login"@) || has_prefix(path, "/static/"@)
}

/// When authentication is on, a page is shown if it is public or the verified session
/// cookie says `authenticated`; otherwise the browser goes to the sign-in page.
pub fn ui_request_allowed(path: &str, session: Option<&str>) -> (r: bool)
    ensures
        r == (public_path(path@) || (session matches Some(s) && s@ == session_marker())),
{
    if starts_with(path, "/login") || starts_with(path, "/static/") {
        return true;
    }
    match session {
        Some(s) => str_eq(s, "authenticated"),
        None => false,
    }
}

/// The body of the form that creates a location.
#[derive(Debug, Clone, Default, PartialEq, Eq)]
pub struct LocationFormPayload {
    pub name: String,
    pub kind: String,
    pub parent_id: Option<String>,
}

/// The location fields of the form.
pub fn location_input_from_form(p: LocationFormPayload) -> (r: LocationInput)
    ensures
        r == (LocationInput { name: p.name, kind: p.kind, parent_id: p.parent_id }),
{
    LocationInput { name: p.name, kind: p.kind, parent_id: p.parent_id }
}

/// The filters of the log page.
#[derive(Debug, Clone, Default, PartialEq, Eq)]
pub struct LogQuery {
    pub asset_id: Option<String>,
    pub kind: Option<String>,
    pub tag: Option<String>,
    pub from: Option<String>,
    pub to: Option<String>,
    pub search: Option<String>,
}

/// The body of the form that records a log entry.
#[derive(Debug, Clone, Default, PartialEq, Eq)]
pub struct LogFormPayload {
    pub task_id: Option<String>,
    pub asset_id: Option<String>,
    pub kind: String,
    pub scheduled_date: Option<String>,
    pub completed_date: String,
    pub cost_cents: Option<i64>,
    pub vendor: Option<String>,
    pub performed_by: Option<String>,
    pub notes: Option<String>,
}

/// The log entry fields of the form.
pub fn log_input_from_form(p: LogFormPayload) -> (r: LogEntryInput)
    ensures
        r == (LogEntryInput {
            task_id: p.task_id,
            asset_id: p.asset_id,
            kind: p.kind,
            scheduled_date: p.scheduled_date,
            completed_date: p.completed_date,
            cost_cents: p.cost_cents,
            vendor: p.vendor,
            performed_by: p.performed_by,
            notes: p.notes,
        }),
{
    LogEntryInput {
        task_id: p.task_id,
        asset_id: p.asset_id,
        kind: p.kind,
        scheduled_date: p.scheduled_date,
        completed_date: p.completed_date,
        cost_cents: p.cost_cents,
        vendor: p.vendor,
        performed_by: p.performed_by,
        notes: p.notes,
    }
}

/// The sign-in page.
#[derive(Debug, Clone, Copy, PartialEq, Eq)]
pub struct LoginView;

/// The settings page.
#[derive(Debug, Clone, PartialEq, Eq)]
pub struct SettingsView {
    pub title: String,
}

/// The location list page.
#[derive(Debug, Clone, PartialEq, Eq)]
pub struct LocationListView {
    pub title: String,
    pub locations: Vec<Location>,
}

/// The log page, with its filters.
#[derive(Debug, Clone, PartialEq, Eq)]
pub struct LogListView {
    pub title: String,
    pub entries: Vec<LogEntry>,
    pub assets: Vec<Asset>,
    pub query: LogQuery,
}

/// The form that records a log entry.
#[derive(Debug, Clone, PartialEq, Eq)]
pub struct LogFormView {
    pub title: String,
    pub assets: Vec<Asset>,
    pub tasks: Vec<Task>,
}

} // verus!
