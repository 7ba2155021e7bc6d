//! The reminder list of the API, with counts by status.
use crate::api::tasks::{status_from_texts, status_from_texts_spec};
use crate::calendar::Date;
use crate::domain::recurrence::ReminderStatus;
use crate::repo::reminders::ReminderWithTask;
use crate::text::clone_opt;
use vstd::prelude::*;

verus! {

/// A reminder as the API lists it, with its status.
#[derive(Debug, Clone, PartialEq, Eq)]
pub struct ReminderJson {
    pub id: String,
    pub task_id: String,
    pub task_name: String,
    pub asset_name: Option<String>,
    pub due_date: String,
    pub status: String,
    pub snoozed_until: Option<String>,
}

/// The status of a reminder row seen today.
pub open spec fn row_status(today: Date, row: ReminderWithTask) -> ReminderStatus {
    status_from_texts_spec(today, row.due_date@, row.snoozed_until)
}

impl ReminderJson {
    /// The row as listed: its fields, with the status derived for today.
    pub fn from_row(today: Date, row: ReminderWithTask) -> (r: ReminderJson)
        requires
            today.wf(),
        ensures
            r.id == row.id,
            r.task_id == row.task_id,
            r.task_name == row.task_name,
            r.asset_name == row.asset_name,
            r.due_date == row.due_date,
            r.snoozed_until == row.snoozed_until,
            r.status@ == row_status(today, row).text(),
    {
        let status = status_from_texts(today, row.due_date.as_str(), &row.snoozed_until);
        ReminderJson {
            id: row.id,
            task_id: row.task_id,
            task_name: row.task_name,
            asset_name: row.asset_name,
            due_date: row.due_date,
            status: String::from_str(status.as_str()),
            snoozed_until: row.snoozed_until,
        }
    }
}

fn copy_row(row: &ReminderWithTask) -> (r: ReminderWithTask)
    ensures
        r == *row,
{
    ReminderWithTask {
        id: row.id.clone(),
        task_id: row.task_id.clone(),
        task_name: row.task_name.clone(),
        asset_id: clone_opt(&row.asset_id),
        asset_name: clone_opt(&row.asset_name),
        due_date: row.due_date.clone(),
        snoozed_until: clone_opt(&row.snoozed_until),
    }
}

/// The listed reminders and how many are overdue, due and upcoming.
#[derive(Debug, Clone, PartialEq, Eq)]
pub struct ReminderSummary {
    pub reminders: Vec<ReminderJson>,
    pub overdue_count: usize,
    pub due_count: usize,
    pub upcoming_count: usize,
}

/// How many of the rows have the status today.
pub open spec fn count_status(today: Date, rows: Seq<ReminderWithTask>, s: ReminderStatus) -> nat
    decreases rows.len(),
{
    if rows.len() == 0 {
        0
    } else {
        count_status(today, rows.drop_last(), s) + if row_status(today, rows.last()) == s {
            1nat
        } else {
            0nat
        }
    }
}

/// The rows listed in order with their statuses, and the count of each status.
pub fn summarize_reminders(today: Date, rows: Vec<ReminderWithTask>) -> (r: ReminderSummary)
    requires
        today.wf(),
    ensures
        r.reminders@.len() == rows@.len(),
        forall|i: int|
            0 <= i < rows@.len() ==> {
                &&& (#[trigger] r.reminders@[i]).id == rows@[i].id
                &&& r.reminders@[i].task_id == rows@[i].task_id
                &&& r.reminders@[i].task_name == rows@[i].task_name
                &&& r.reminders@[i].asset_name == rows@[i].asset_name
                &&& r.reminders@[i].due_date == rows@[i].due_date
                &&& r.reminders@[i].snoozed_until == rows@[i].snoozed_until
                &&& r.reminders@[i].status@ == row_status(today, rows@[i]).text()
            },
        r.overdue_count == count_status(today, rows@, ReminderStatus::Overdue),
        r.due_count == count_status(today, rows@, ReminderStatus::Due),
        r.upcoming_count == count_status(today, rows@, ReminderStatus::Upcoming),
{
    let mut reminders: Vec<ReminderJson> = Vec::new();
    let mut overdue_count: usize = 0;
    let mut due_count: usize = 0;
    let mut upcoming_count: usize = 0;
    let mut i: usize = 0;
    while i < rows.len()
        invariant
            today.wf(),
            i <= rows@.len(),
            reminders@.len() == i,
            forall|k: int|
                0 <= k < i ==> {
                    &&& (#[trigger] reminders@[k]).id == rows@[k].id
                    &&& reminders@[k].task_id == rows@[k].task_id
                    &&& reminders@[k].task_name == rows@[k].task_name
                    &&& reminders@[k].asset_name == rows@[k].asset_name
                    &&& reminders@[k].due_date == rows@[k].due_date
                    &&& reminders@[k].snoozed_until == rows@[k].snoozed_until
                    &&& reminders@[k].status@ == row_status(today, rows@[k]).text()
                },
            overdue_count == count_status(today, rows@.take(i as int), ReminderStatus::Overdue),
            due_count == count_status(today, rows@.take(i as int), ReminderStatus::Due),
            upcoming_count == count_status(today, rows@.take(i as int), ReminderStatus::Upcoming),
            overdue_count + due_count + upcoming_count == i,
        decreases rows@.len() - i,
    {
        let row = &rows[i];
        let status = status_from_texts(today, row.due_date.as_str(), &row.snoozed_until);
        proof {
            assert(rows@.take(i + 1).drop_last() =~= rows@.take(i as int));
            assert(rows@.take(i + 1).last() == rows@[i as int]);
        }
        match status {
            ReminderStatus::Overdue => overdue_count = overdue_count + 1,
            ReminderStatus::Due => due_count = due_count + 1,
            ReminderStatus::Upcoming => upcoming_count = upcoming_count + 1,
        }
        reminders.push(ReminderJson::from_row(today, copy_row(row)));
        i = i + 1;
    }
    assert(rows@.take(rows@.len() as int) =~= rows@);
    ReminderSummary { reminders, overdue_count, due_count, upcoming_count }
}

/// Every reminder is counted once: the three counts add up to the number of rows.
pub proof fn law_status_counts_cover_rows(today: Date, rows: Seq<ReminderWithTask>)
    ensures
        count_status(today, rows, ReminderStatus::Overdue) + count_status(today, rows, ReminderStatus::Due)
            + count_status(today, rows, ReminderStatus::Upcoming) == rows.len(),
    decreases rows.len(),
{
    if rows.len() > 0 {
        law_status_counts_cover_rows(today, rows.drop_last());
    }
}

} // verus!
