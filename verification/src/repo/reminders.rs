//! Reminders: when each active task is next due.
use crate::calendar::{date_lt, epoch_day, Date};
use crate::domain::recurrence::{
    anchor_exists, anchor_in_year, anchor_step,
    add_months_spec, fixed_outcome, floating_outcome, months_outcome, law_fixed_after_reference_on_anchor, law_floating_after_completion, next_due_fixed, next_due_fixed_defined, next_due_fixed_fits,
    next_due_floating, RecurrenceError,
};
use crate::domain::schedule::anchor_spec;
use crate::error::AppError;
use crate::repo::log::{clause, count};
use crate::text::{push_decimal, str_eq};
use vstd::prelude::*;

verus! {

/// A stored reminder.
#[derive(Debug, Clone, PartialEq, Eq)]
pub struct Reminder {
    pub id: String,
    pub created_at: String,
    pub updated_at: String,
    pub task_id: String,
    pub due_date: String,
    pub snoozed_until: Option<String>,
    pub last_notified_at: Option<String>,
}

/// The fields of a reminder as given to create or update it.
#[derive(Debug, Clone, Default, PartialEq, Eq)]
pub struct ReminderInput {
    pub due_date: String,
    pub snoozed_until: Option<String>,
    pub task_id: String,
}

/// Flat reminder row with joined task and asset names, intended for dashboard
/// rendering. The status is derived in Rust so the same logic works on both
/// Postgres and SQLite.
#[derive(Debug, Clone, PartialEq, Eq)]
pub struct ReminderWithTask {
    pub id: String,
    pub task_id: String,
    pub task_name: String,
    pub asset_id: Option<String>,
    pub asset_name: Option<String>,
    pub due_date: String,
    pub snoozed_until: Option<String>,
}

/// The schedule fields of a stored task, as the next due date needs them.
#[derive(Debug, Clone, PartialEq, Eq)]
pub struct TaskForReminder {
    pub schedule_mode: String,
    pub interval_value: Option<i64>,
    pub interval_unit: Option<String>,
    pub season_anchor: Option<String>,
    pub fixed_interval_years: Option<i64>,
}

pub open spec fn reminders_with_tasks_base() -> Seq<char> {
    "SELECT\n            r.id,\n            r.task_id,\n            t.name AS task_name,\n            t.asset_id,\n            a.name AS asset_name,\n            r.due_date,\n            r.snoozed_until\n         FROM reminders r\n         JOIN tasks t ON t.id = r.task_id\n         LEFT JOIN assets a ON a.id = t.asset_id\n         WHERE t.active = 1\n         ORDER BY r.due_date"@
}

/// The query for the reminders of active tasks with task and asset names, by due
/// date, with an optional limit bound to `$1`.
pub fn reminders_with_tasks_sql(has_limit: bool) -> (r: String)
    ensures
        r@ == reminders_with_tasks_base() + clause(has_limit, " LIMIT $"@, 1),
{
    let mut sql = String::from_str(
        "SELECT\n            r.id,\n            r.task_id,\n            t.name AS task_name,\n            t.asset_id,\n            a.name AS asset_name,\n            r.due_date,\n            r.snoozed_until\n         FROM reminders r\n         JOIN tasks t ON t.id = r.task_id\n         LEFT JOIN assets a ON a.id = t.asset_id\n         WHERE t.active = 1\n         ORDER BY r.due_date",
    );
    if has_limit {
        sql.append(" LIMIT $");
        push_decimal(&mut sql, 1);
    } else {
        assert(sql@ + Seq::<char>::empty() =~= sql@);
    }
    sql
}

pub open spec fn reminders_base() -> Seq<char> {
    "SELECT r.* FROM reminders r\n         JOIN tasks t ON t.id = r.task_id\n         WHERE t.active = 1"@
}

/// The status filter: the status derived in SQL equals the bound text.
pub open spec fn status_filter_prefix() -> Seq<char> {
    " AND (\n            CASE\n                WHEN r.snoozed_until IS NOT NULL AND date(r.snoozed_until) >= date('now') THEN 'upcoming'\n                WHEN date(r.due_date) < date('now') THEN 'overdue'\n                WHEN julianday(r.due_date) - julianday('now') <= 7 THEN 'due'\n                ELSE 'upcoming'\n            END\n        ) = $"@
}

/// The query for the reminders of active tasks, by due date: placeholders numbered
/// `$1, $2, ...` for the asset, the status and the limit, those present, in that order.
pub open spec fn reminders_query_text(a: bool, s: bool, l: bool) -> Seq<char> {
    let n1: int = 1;
    let n2 = n1 + count(a);
    let n3 = n2 + count(s);
    reminders_base() + clause(a, " AND t.asset_id = $"@, n1) + clause(s, status_filter_prefix(), n2)
        + " ORDER BY r.due_date"@ + clause(l, " LIMIT $"@, n3)
}

fn push_clause(sql: &mut String, present: bool, prefix: &str, n: &mut u64)
    requires
        *old(n) <= 6,
    ensures
        final(sql)@ == old(sql)@ + clause(present, prefix@, *old(n) as int),
        *final(n) == *old(n) + count(present),
{
    if present {
        sql.append(prefix);
        push_decimal(sql, *n);
        *n = *n + 1;
    } else {
        assert(old(sql)@ + Seq::<char>::empty() =~= old(sql)@);
    }
}

/// Builds the query that lists reminders with the present filters.
pub fn reminders_sql(has_asset: bool, has_status: bool, has_limit: bool) -> (r: String)
    ensures
        r@ == reminders_query_text(has_asset, has_status, has_limit),
{
    let mut sql = String::from_str(
        "SELECT r.* FROM reminders r\n         JOIN tasks t ON t.id = r.task_id\n         WHERE t.active = 1",
    );
    let mut n: u64 = 1;
    push_clause(&mut sql, has_asset, " AND t.asset_id = $", &mut n);
    push_clause(
        &mut sql,
        has_status,
        " AND (\n            CASE\n                WHEN r.snoozed_until IS NOT NULL AND date(r.snoozed_until) >= date('now') THEN 'upcoming'\n                WHEN date(r.due_date) < date('now') THEN 'overdue'\n                WHEN julianday(r.due_date) - julianday('now') <= 7 THEN 'due'\n                ELSE 'upcoming'\n            END\n        ) = $",
        &mut n,
    );
    sql.append(" ORDER BY r.due_date");
    push_clause(&mut sql, has_limit, " LIMIT $", &mut n);
    sql
}

/// A recurrence result with its error as an internal error.
pub open spec fn as_internal(r: Result<Date, AppError>, rr: Result<Date, RecurrenceError>) -> bool {
    match rr {
        Ok(d) => r == Ok::<Date, AppError>(d),
        Err(e) => r matches Err(AppError::Internal(m)) && m@ == e.text(),
    }
}

fn to_internal(rr: Result<Date, RecurrenceError>) -> (r: Result<Date, AppError>)
    ensures
        as_internal(r, rr),
{
    match rr {
        Ok(d) => Ok(d),
        Err(e) => Err(AppError::Internal(e.message())),
    }
}

pub open spec fn opt_text(o: Option<String>) -> Option<Seq<char>> {
    match o {
        Some(s) => Some(s@),
        None => None,
    }
}

/// The next due date of a task completed on a date, per its stored schedule.
pub open spec fn next_due_outcome(task: TaskForReminder, completed: Date, r: Result<Date, AppError>) -> bool {
    if task.schedule_mode@ == "floating"@ {
        let value = (match task.interval_value { Some(v) => v, None => 1 }) as u32;
        let unit = match task.interval_unit { Some(u) => u@, None => "month"@ };
        exists|rr: Result<Date, RecurrenceError>|
            floating_outcome(completed, value as int, unit, rr) && #[trigger] as_internal(r, rr)
    } else if task.schedule_mode@ == "fixed"@ {
        match task.season_anchor {
            None => r matches Err(AppError::Internal(m)) && m@ == "missing season_anchor"@,
            Some(a) => {
                let years = (match task.fixed_interval_years { Some(y) => y, None => 1 }) as u32;
                exists|rr: Result<Date, RecurrenceError>|
                    fixed_outcome(completed, a@, years, rr) && #[trigger] as_internal(r, rr)
            },
        }
    } else {
        r matches Err(AppError::Internal(m)) && m@ == "unknown schedule mode: "@ + task.schedule_mode@
    }
}

/// `compute_next_due` runs without an arithmetic overflow on these inputs.
pub open spec fn next_due_defined(task: TaskForReminder, completed: Date) -> bool {
    task.schedule_mode@ == "fixed"@ && task.season_anchor is Some ==> next_due_fixed_defined(
        completed,
        task.season_anchor->0@,
        (match task.fixed_interval_years { Some(y) => y, None => 1 }) as u32,
    )
}

/// Checks `next_due_defined`.
pub fn next_due_fits(task: &TaskForReminder, completed: Date) -> (r: bool)
    requires
        completed.wf(),
    ensures
        r == next_due_defined(*task, completed),
{
    if str_eq(task.schedule_mode.as_str(), "fixed") {
        match &task.season_anchor {
            Some(a) => {
                let years = #[verifier::truncate] ((match task.fixed_interval_years { Some(y) => y, None => 1 }) as u32);
                next_due_fixed_fits(completed, a.as_str(), years)
            },
            None => true,
        }
    } else {
        true
    }
}

/// The next due date of a task that was completed on `completed_date`.
pub fn compute_next_due(task: &TaskForReminder, completed_date: Date) -> (r: Result<Date, AppError>)
    requires
        completed_date.wf(),
        next_due_defined(*task, completed_date),
    ensures
        next_due_outcome(*task, completed_date, r),
        r matches Ok(d) ==> d.wf(),
{
    if str_eq(task.schedule_mode.as_str(), "floating") {
        let value = #[verifier::truncate] ((match task.interval_value { Some(v) => v, None => 1 }) as u32);
        let unit = match &task.interval_unit {
            Some(u) => u.as_str(),
            None => "month",
        };
        let rr = next_due_floating(completed_date, value, unit);
        let r = to_internal(rr);
        assert(floating_outcome(completed_date, value as int, unit@, rr) && as_internal(r, rr));
        r
    } else if str_eq(task.schedule_mode.as_str(), "fixed") {
        let anchor = match &task.season_anchor {
            Some(a) => a,
            None => return Err(AppError::Internal(String::from_str("missing season_anchor"))),
        };
        let years = #[verifier::truncate] ((match task.fixed_interval_years { Some(y) => y, None => 1 }) as u32);
        let rr = next_due_fixed(completed_date, anchor.as_str(), years);
        let r = to_internal(rr);
        assert(fixed_outcome(completed_date, anchor@, years, rr) && as_internal(r, rr));
        r
    } else {
        Err(
            AppError::Internal(
                String::from_str("unknown schedule mode: ").concat(task.schedule_mode.as_str()),
            ),
        )
    }
}

/// Completing a task moves its reminder strictly past the completion date, for every
/// schedule with an interval of at least one unit.
pub proof fn law_next_due_after_completion(task: TaskForReminder, completed: Date, r: Result<Date, AppError>)
    requires
        completed.wf(),
        next_due_outcome(task, completed, r),
        r is Ok,
        task.schedule_mode@ == "floating"@ ==> (match task.interval_value { Some(v) => v, None => 1 }) as u32 >= 1,
    ensures
        date_lt(completed, r->Ok_0),
{
    if task.schedule_mode@ == "floating"@ {
        let value = (match task.interval_value { Some(v) => v, None => 1 }) as u32;
        let unit = match task.interval_unit { Some(u) => u@, None => "month"@ };
        let rr = choose|rr: Result<Date, RecurrenceError>|
            floating_outcome(completed, value as int, unit, rr) && #[trigger] as_internal(r, rr);
        law_floating_after_completion(completed, value as int, unit, rr);
    } else if task.schedule_mode@ == "fixed"@ {
        let a = task.season_anchor->0;
        let years = (match task.fixed_interval_years { Some(y) => y, None => 1 }) as u32;
        let rr = choose|rr: Result<Date, RecurrenceError>|
            fixed_outcome(completed, a@, years, rr) && #[trigger] as_internal(r, rr);
        law_fixed_after_reference_on_anchor(completed, a@, years, rr);
    }
}

/// A fixed task keeps its cadence: completed on or after this year's anchor, it is
/// next due on the anchor `fixed_interval_years` (one where unset) years after the
/// completion year; completed before it, on this year's anchor.
pub proof fn law_fixed_task_keeps_its_cadence(
    task: TaskForReminder,
    completed: Date,
    r: Result<Date, AppError>,
    m: int,
    d: int,
    years: int,
)
    requires
        completed.wf(),
        next_due_outcome(task, completed, r),
        task.schedule_mode@ == "fixed"@,
        task.season_anchor matches Some(a) && anchor_spec(a@) == Some((m, d)),
        years == match task.fixed_interval_years { Some(y) => y as int, None => 1 },
        1 <= years <= i32::MAX,
        anchor_exists(completed.year as int, m, d),
        anchor_exists(completed.year + years, m, d),
    ensures
        !date_lt(completed, anchor_in_year(completed.year as int, m, d)) ==> r == Ok::<Date, AppError>(
            anchor_in_year(completed.year + years, m, d),
        ),
        date_lt(completed, anchor_in_year(completed.year as int, m, d)) ==> r == Ok::<Date, AppError>(
            anchor_in_year(completed.year as int, m, d),
        ),
{
    reveal_strlit("fixed");
    reveal_strlit("floating");
    assert("fixed"@[1] != "floating"@[1]);
    let a = task.season_anchor->0;
    let y32 = (match task.fixed_interval_years { Some(y) => y, None => 1 }) as u32;
    assert(y32 as int == years);
    assert(anchor_step(y32) == years);
    let rr = choose|rr: Result<Date, RecurrenceError>|
        fixed_outcome(completed, a@, y32, rr) && #[trigger] as_internal(r, rr);
}

/// A floating task comes back one interval after its completion: `interval_value`
/// (one where unset) days or weeks, counted in days, or months or years (months where
/// the unit is unset), counted in calendar months.
pub proof fn law_floating_task_interval(
    task: TaskForReminder,
    completed: Date,
    r: Result<Date, AppError>,
    value: int,
    unit: Seq<char>,
)
    requires
        completed.wf(),
        next_due_outcome(task, completed, r),
        task.schedule_mode@ == "floating"@,
        value == match task.interval_value { Some(v) => v as int, None => 1 },
        0 <= value <= u32::MAX,
        unit == match task.interval_unit { Some(u) => u@, None => "month"@ },
        r is Ok,
    ensures
        unit == "day"@ ==> epoch_day(r->Ok_0) == epoch_day(completed) + value,
        unit == "week"@ ==> epoch_day(r->Ok_0) == epoch_day(completed) + 7 * value,
        unit == "month"@ ==> r->Ok_0.month_index() == completed.month_index() + value,
        unit == "year"@ ==> r->Ok_0.month_index() == completed.month_index() + 12 * value,
{
    let v32 = (match task.interval_value { Some(v) => v, None => 1 }) as u32;
    assert(v32 as int == value);
    let rr = choose|rr: Result<Date, RecurrenceError>|
        floating_outcome(completed, v32 as int, unit, rr) && #[trigger] as_internal(r, rr);
    reveal_strlit("day");
    reveal_strlit("week");
    reveal_strlit("month");
    reveal_strlit("year");
    assert("day"@.len() == 3 && "week"@.len() == 4 && "month"@.len() == 5 && "year"@.len() == 4);
    assert("week"@[0] != "year"@[0]);
    assert(rr is Ok);
    let x = rr->Ok_0;
    assert(r->Ok_0 == x);
    if unit == "month"@ || unit == "year"@ {
        let n = if unit == "month"@ { value } else { 12 * value };
        assert(months_outcome(completed, n, rr));
        assert(add_months_spec(completed, n) is Some);
        let idx = completed.month_index() + n;
        assert(x.year == idx / 12 && x.month == idx % 12 + 1);
        assert(x.year * 12 + x.month - 1 == idx);
    }
}

} // verus!
