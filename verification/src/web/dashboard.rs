//! The dashboard: reminders grouped by status, soon-due ones first.
use crate::api::reminders::row_status;
use crate::api::tasks::{parsed_date, status_from_texts};
use crate::calendar::{chrono_add_days, chrono_parse, epoch_day, lemma_epoch_day_order, max_date, Date};
use crate::domain::recurrence::ReminderStatus;
use crate::repo::log::LogEntry;
use crate::repo::reminders::ReminderWithTask;
use crate::text::clone_opt;
use vstd::prelude::*;

verus! {

/// A reminder as the dashboard shows it, with its status.
#[derive(Debug, Clone, PartialEq, Eq)]
pub struct ReminderView {
    pub id: String,
    pub task_id: String,
    pub task_name: String,
    pub asset_name: Option<String>,
    pub due_date: String,
    pub status: String,
    pub snoozed_until: Option<String>,
}

/// `v` shows `row` with its status today.
pub open spec fn shows(today: Date, v: ReminderView, row: ReminderWithTask) -> bool {
    &&& v.id == row.id
    &&& v.task_id == row.task_id
    &&& v.task_name == row.task_name
    &&& v.asset_name == row.asset_name
    &&& v.due_date == row.due_date
    &&& v.snoozed_until == row.snoozed_until
    &&& v.status@ == row_status(today, row).text()
}

impl ReminderView {
    /// The row as shown: its fields, with the status derived for today.
    pub fn from_row(today: Date, row: ReminderWithTask) -> (r: ReminderView)
        requires
            today.wf(),
        ensures
            shows(today, r, row),
    {
        let status = status_from_texts(today, row.due_date.as_str(), &row.snoozed_until);
        ReminderView {
            id: row.id,
            task_id: row.task_id,
            task_name: row.task_name,
            asset_name: row.asset_name,
            due_date: row.due_date,
            status: String::from_str(status.as_str()),
            snoozed_until: row.snoozed_until,
        }
    }
}

/// How many reminders each group shows.
#[derive(Debug, Clone, Copy, PartialEq, Eq)]
pub struct Counts {
    pub overdue: usize,
    pub due: usize,
    pub upcoming: usize,
}

/// The dashboard's groups of reminders.
#[derive(Debug, Clone, PartialEq, Eq)]
pub struct DashboardGroups {
    pub overdue: Vec<ReminderView>,
    pub due: Vec<ReminderView>,
    pub upcoming: Vec<ReminderView>,
    pub counts: Counts,
}

/// The rows that satisfy `p`, in order.
pub open spec fn rows_where(
    rows: Seq<ReminderWithTask>,
    p: spec_fn(ReminderWithTask) -> bool,
) -> Seq<ReminderWithTask>
    decreases rows.len(),
{
    if rows.len() == 0 {
        Seq::empty()
    } else if p(rows.last()) {
        rows_where(rows.drop_last(), p).push(rows.last())
    } else {
        rows_where(rows.drop_last(), p)
    }
}

/// The views show the rows, one for one, in order.
pub open spec fn shows_all(today: Date, views: Seq<ReminderView>, rows: Seq<ReminderWithTask>) -> bool {
    &&& views.len() == rows.len()
    &&& forall|i: int| 0 <= i < rows.len() ==> shows(today, #[trigger] views[i], rows[i])
}

/// The last day that the upcoming group reaches: thirty days after today, or today
/// where that day is out of range.
pub open spec fn cutoff_day(today: Date) -> int {
    if epoch_day(today) + 30 <= epoch_day(max_date()) {
        epoch_day(today) + 30
    } else {
        epoch_day(today)
    }
}

/// A row belongs to the upcoming group of the dashboard: upcoming, with a readable due
/// date no later than the cutoff.
pub open spec fn shown_upcoming(today: Date, row: ReminderWithTask) -> bool {
    &&& row_status(today, row) == ReminderStatus::Upcoming
    &&& parsed_date(row.due_date@) matches Some(d) && epoch_day(d) <= cutoff_day(today)
}

pub open spec fn overdue_rows(today: Date, rows: Seq<ReminderWithTask>) -> Seq<ReminderWithTask> {
    rows_where(rows, |r: ReminderWithTask| row_status(today, r) == ReminderStatus::Overdue)
}

pub open spec fn due_rows(today: Date, rows: Seq<ReminderWithTask>) -> Seq<ReminderWithTask> {
    rows_where(rows, |r: ReminderWithTask| row_status(today, r) == ReminderStatus::Due)
}

pub open spec fn upcoming_rows(today: Date, rows: Seq<ReminderWithTask>) -> Seq<ReminderWithTask> {
    rows_where(rows, |r: ReminderWithTask| shown_upcoming(today, r))
}

fn copy_row(row: &ReminderWithTask) -> (r: ReminderWithTask)
    ensures
        r == *row,
{
    ReminderWithTask {
        id: row.id.clone(),
        task_id: row.task_id.clone(),
        task_name: row.task_name.clone(),
        asset_id: clone_opt(&row.asset_id),
        asset_name: clone_opt(&row.asset_name),
        due_date: row.due_date.clone(),
        snoozed_until: clone_opt(&row.snoozed_until),
    }
}

/// The group of the dashboard that shows a row, if any.
#[derive(Debug, Clone, Copy, PartialEq, Eq)]
pub enum Group {
    Overdue,
    Due,
    Upcoming,
    Hidden,
}

fn classify_row(today: Date, cutoff: Date, row: &ReminderWithTask) -> (g: Group)
    requires
        today.wf(),
        cutoff.wf(),
        epoch_day(cutoff) == cutoff_day(today),
    ensures
        (g == Group::Overdue) == (row_status(today, *row) == ReminderStatus::Overdue),
        (g == Group::Due) == (row_status(today, *row) == ReminderStatus::Due),
        (g == Group::Upcoming) == shown_upcoming(today, *row),
{
    let status = status_from_texts(today, row.due_date.as_str(), &row.snoozed_until);
    match status {
        ReminderStatus::Overdue => Group::Overdue,
        ReminderStatus::Due => Group::Due,
        ReminderStatus::Upcoming => {
            let keep = match chrono_parse(row.due_date.as_str()) {
                Ok(d) => {
                    proof { lemma_epoch_day_order(d, cutoff); }
                    d.on_or_before(&cutoff)
                },
                Err(_) => false,
            };
            if keep { Group::Upcoming } else { Group::Hidden }
        },
    }
}

/// Groups the reminders of active tasks for the dashboard: overdue, due, and upcoming
/// within thirty days; each group keeps the order of the rows.
pub fn dashboard_groups(today: Date, rows: Vec<ReminderWithTask>) -> (r: DashboardGroups)
    requires
        today.wf(),
    ensures
        shows_all(today, r.overdue@, overdue_rows(today, rows@)),
        shows_all(today, r.due@, due_rows(today, rows@)),
        shows_all(today, r.upcoming@, upcoming_rows(today, rows@)),
        r.counts.overdue == r.overdue@.len(),
        r.counts.due == r.due@.len(),
        r.counts.upcoming == r.upcoming@.len(),
{
    let cutoff = match chrono_add_days(today, 30) {
        Some(c) => c,
        None => today,
    };
    assert(epoch_day(cutoff) == cutoff_day(today));
    let mut overdue: Vec<ReminderView> = Vec::new();
    let mut due: Vec<ReminderView> = Vec::new();
    let mut upcoming: Vec<ReminderView> = Vec::new();
    let mut i: usize = 0;
    while i < rows.len()
        invariant
            today.wf(),
            cutoff.wf(),
            epoch_day(cutoff) == cutoff_day(today),
            i <= rows@.len(),
            shows_all(today, overdue@, overdue_rows(today, rows@.take(i as int))),
            shows_all(today, due@, due_rows(today, rows@.take(i as int))),
            shows_all(today, upcoming@, upcoming_rows(today, rows@.take(i as int))),
        decreases rows@.len() - i,
    {
        let row = &rows[i];
        proof {
            assert(rows@.take(i + 1).drop_last() =~= rows@.take(i as int));
            assert(rows@.take(i + 1).last() == rows@[i as int]);
        }
        match classify_row(today, cutoff, row) {
            Group::Overdue => {
                overdue.push(ReminderView::from_row(today, copy_row(row)));
            },
            Group::Due => {
                due.push(ReminderView::from_row(today, copy_row(row)));
            },
            Group::Upcoming => {
                upcoming.push(ReminderView::from_row(today, copy_row(row)));
            },
            Group::Hidden => {},
        }
        i = i + 1;
    }
    assert(rows@.take(rows@.len() as int) =~= rows@);
    let counts = Counts { overdue: overdue.len(), due: due.len(), upcoming: upcoming.len() };
    DashboardGroups { overdue, due, upcoming, counts }
}

/// The data of one reminder card.
#[derive(Debug, Clone, PartialEq, Eq)]
pub struct ReminderCard {
    pub _id: String,
    pub task_id: String,
    pub task_name: String,
    pub asset_name: Option<String>,
    pub due_date: String,
    pub _status: String,
    pub _snoozed_until: Option<String>,
}

impl ReminderView {
    /// The card that shows this reminder.
    pub fn card(&self) -> (r: ReminderCard)
        ensures
            r == (ReminderCard {
                _id: self.id,
                task_id: self.task_id,
                task_name: self.task_name,
                asset_name: self.asset_name,
                due_date: self.due_date,
                _status: self.status,
                _snoozed_until: self.snoozed_until,
            }),
    {
        ReminderCard {
            _id: self.id.clone(),
            task_id: self.task_id.clone(),
            task_name: self.task_name.clone(),
            asset_name: clone_opt(&self.asset_name),
            due_date: self.due_date.clone(),
            _status: self.status.clone(),
            _snoozed_until: clone_opt(&self.snoozed_until),
        }
    }
}

/// How many log entries the dashboard shows.
pub const RECENT_LOG_LIMIT: usize = 20;

/// The dashboard page.
#[derive(Debug, Clone, PartialEq, Eq)]
pub struct DashboardView {
    pub title: String,
    pub overdue: Vec<ReminderView>,
    pub due: Vec<ReminderView>,
    pub upcoming: Vec<ReminderView>,
    pub recent_log: Vec<LogEntry>,
    pub counts: Counts,
}

/// The first entries of the log, at most `RECENT_LOG_LIMIT` of them.
pub open spec fn recent_entries(log: Seq<LogEntry>) -> Seq<LogEntry> {
    if log.len() <= RECENT_LOG_LIMIT { log } else { log.take(RECENT_LOG_LIMIT as int) }
}

/// The dashboard: its title names the time zone; the reminders are grouped as
/// `dashboard_groups` groups them; the log shows its newest entries, given newest
/// first.
pub fn dashboard_view(timezone: &str, today: Date, rows: Vec<ReminderWithTask>, log: Vec<LogEntry>) -> (r:
    DashboardView)
    requires
        today.wf(),
    ensures
        r.title@ == "Home Maintenance — "@ + timezone@,
        shows_all(today, r.overdue@, overdue_rows(today, rows@)),
        shows_all(today, r.due@, due_rows(today, rows@)),
        shows_all(today, r.upcoming@, upcoming_rows(today, rows@)),
        r.counts.overdue == r.overdue@.len(),
        r.counts.due == r.due@.len(),
        r.counts.upcoming == r.upcoming@.len(),
        r.recent_log@ == recent_entries(log@),
{
    let groups = dashboard_groups(today, rows);
    let mut recent_log = log;
    recent_log.truncate(RECENT_LOG_LIMIT);
    DashboardView {
        title: String::from_str("Home Maintenance — ").concat(timezone),
        overdue: groups.overdue,
        due: groups.due,
        upcoming: groups.upcoming,
        recent_log,
        counts: groups.counts,
    }
}

} // verus!
