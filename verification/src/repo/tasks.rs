//! Maintenance tasks and the rules for updating them.
use crate::calendar::{date_lt, Date};
use crate::domain::recurrence::{
    anchor_exists, anchor_in_year, anchor_step, fixed_outcome, initial_due_date, initial_due_defined, initial_outcome, next_due_fixed_fits, RecurrenceError,
};
use crate::domain::schedule::{anchor_spec, opt_view};
use crate::error::AppError;
use crate::repo::assets::{merge_text, merge_text_spec, or_existing};
use crate::repo::reminders::opt_text;
use crate::text::str_eq;
use vstd::prelude::*;

verus! {

/// A stored task.
#[derive(Debug, Clone, PartialEq, Eq)]
pub struct Task {
    pub id: String,
    pub created_at: String,
    pub updated_at: String,
    pub asset_id: Option<String>,
    pub name: String,
    pub description: Option<String>,
    pub schedule_mode: String,
    pub interval_value: Option<i64>,
    pub interval_unit: Option<String>,
    pub season_anchor: Option<String>,
    pub fixed_interval_years: Option<i64>,
    pub estimated_minutes: Option<i64>,
    pub active: i64,
}

/// The fields of a task as given to create or update it.
#[derive(Debug, Clone, Default, PartialEq, Eq)]
pub struct TaskInput {
    pub asset_id: Option<String>,
    pub name: String,
    pub description: Option<String>,
    pub schedule_mode: String,
    pub interval_value: Option<i64>,
    pub interval_unit: Option<String>,
    pub season_anchor: Option<String>,
    pub fixed_interval_years: Option<i64>,
    pub estimated_minutes: Option<i64>,
}

/// What an update of a task writes, and whether its schedule changed.
#[derive(Debug, Clone, PartialEq, Eq)]
pub struct TaskUpdate {
    pub merged: TaskInput,
    pub schedule_changed: bool,
}

pub open spec fn or_spec<T>(input: Option<T>, existing: Option<T>) -> Option<T> {
    match input {
        Some(v) => Some(v),
        None => existing,
    }
}

/// The values an update writes: non-empty name and mode and present optional values
/// replace the stored ones.
pub open spec fn task_update_spec(existing: Task, input: TaskInput) -> TaskInput {
    TaskInput {
        asset_id: or_spec(input.asset_id, existing.asset_id),
        name: merge_text_spec(input.name, existing.name),
        description: or_spec(input.description, existing.description),
        schedule_mode: merge_text_spec(input.schedule_mode, existing.schedule_mode),
        interval_value: or_spec(input.interval_value, existing.interval_value),
        interval_unit: or_spec(input.interval_unit, existing.interval_unit),
        season_anchor: or_spec(input.season_anchor, existing.season_anchor),
        fixed_interval_years: or_spec(input.fixed_interval_years, existing.fixed_interval_years),
        estimated_minutes: or_spec(input.estimated_minutes, existing.estimated_minutes),
    }
}

/// The schedule of the merged task differs from the stored one.
pub open spec fn schedule_differs(existing: Task, merged: TaskInput) -> bool {
    ||| existing.schedule_mode@ != merged.schedule_mode@
    ||| existing.interval_value != merged.interval_value
    ||| opt_text(existing.interval_unit) != opt_text(merged.interval_unit)
    ||| opt_text(existing.season_anchor) != opt_text(merged.season_anchor)
    ||| existing.fixed_interval_years != merged.fixed_interval_years
}

fn opt_text_eq(a: &Option<String>, b: &Option<String>) -> (r: bool)
    ensures
        r == (opt_text(*a) == opt_text(*b)),
{
    match (a, b) {
        (Some(x), Some(y)) => str_eq(x.as_str(), y.as_str()),
        (None, None) => true,
        _ => false,
    }
}

fn opt_i64_eq(a: Option<i64>, b: Option<i64>) -> (r: bool)
    ensures
        r == (a == b),
{
    match (a, b) {
        (Some(x), Some(y)) => x == y,
        (None, None) => true,
        _ => false,
    }
}

/// Merges an update over the stored task and tells whether the schedule changed,
/// in which case the reminder is computed anew.
pub fn merge_task_update(existing: &Task, input: TaskInput) -> (r: TaskUpdate)
    ensures
        r.merged == task_update_spec(*existing, input),
        r.schedule_changed == schedule_differs(*existing, r.merged),
{
    let merged = TaskInput {
        asset_id: or_existing(input.asset_id, existing.asset_id.clone()),
        name: merge_text(input.name, existing.name.clone()),
        description: or_existing(input.description, existing.description.clone()),
        schedule_mode: merge_text(input.schedule_mode, existing.schedule_mode.clone()),
        interval_value: or_existing(input.interval_value, existing.interval_value),
        interval_unit: or_existing(input.interval_unit, existing.interval_unit.clone()),
        season_anchor: or_existing(input.season_anchor, existing.season_anchor.clone()),
        fixed_interval_years: or_existing(input.fixed_interval_years, existing.fixed_interval_years),
        estimated_minutes: or_existing(input.estimated_minutes, existing.estimated_minutes),
    };
    let schedule_changed = existing.schedule_mode != merged.schedule_mode
        || !opt_i64_eq(existing.interval_value, merged.interval_value)
        || !opt_text_eq(&existing.interval_unit, &merged.interval_unit)
        || !opt_text_eq(&existing.season_anchor, &merged.season_anchor)
        || !opt_i64_eq(existing.fixed_interval_years, merged.fixed_interval_years);
    TaskUpdate { merged, schedule_changed }
}

/// The stored task's fields as an input, to compute its reminder anew.
pub fn task_input_from_task(task: Task) -> (r: TaskInput)
    ensures
        r == (TaskInput {
            asset_id: task.asset_id,
            name: task.name,
            description: task.description,
            schedule_mode: task.schedule_mode,
            interval_value: task.interval_value,
            interval_unit: task.interval_unit,
            season_anchor: task.season_anchor,
            fixed_interval_years: task.fixed_interval_years,
            estimated_minutes: task.estimated_minutes,
        }),
{
    TaskInput {
        asset_id: task.asset_id,
        name: task.name,
        description: task.description,
        schedule_mode: task.schedule_mode,
        interval_value: task.interval_value,
        interval_unit: task.interval_unit,
        season_anchor: task.season_anchor,
        fixed_interval_years: task.fixed_interval_years,
        estimated_minutes: task.estimated_minutes,
    }
}

/// A recurrence result with its error as a bad request.
pub open spec fn as_bad_request(r: Result<Date, AppError>, rr: Result<Date, RecurrenceError>) -> bool {
    match rr {
        Ok(d) => r == Ok::<Date, AppError>(d),
        Err(e) => r matches Err(AppError::BadRequest(m)) && m@ == e.text(),
    }
}

pub open spec fn input_value(input: TaskInput) -> Option<u32> {
    match input.interval_value {
        Some(v) => Some(v as u32),
        None => None,
    }
}

pub open spec fn input_years(input: TaskInput) -> u32 {
    (match input.fixed_interval_years { Some(y) => y, None => 1 }) as u32
}

/// The first due date of a task per its input.
pub open spec fn initial_due_outcome(
    input: TaskInput,
    today: Date,
    last_done: Option<Date>,
    r: Result<Date, AppError>,
) -> bool {
    exists|rr: Result<Date, RecurrenceError>|
        initial_outcome(
            today,
            last_done,
            input.schedule_mode@,
            input_value(input),
            opt_text(input.interval_unit),
            opt_text(input.season_anchor),
            input_years(input),
            rr,
        ) && #[trigger] as_bad_request(r, rr)
}

/// `compute_initial_due_date` runs without an arithmetic overflow on these inputs.
pub open spec fn initial_due_input_defined(input: TaskInput, today: Date, last_done: Option<Date>) -> bool {
    initial_due_defined(
        today,
        last_done,
        input.schedule_mode@,
        opt_text(input.season_anchor),
        input_years(input),
    )
}

/// Checks `initial_due_input_defined`.
pub fn initial_due_fits(input: &TaskInput, today: Date, last_done: Option<Date>) -> (r: bool)
    requires
        today.wf(),
        last_done matches Some(d) ==> d.wf(),
    ensures
        r == initial_due_input_defined(*input, today, last_done),
{
    let base = match last_done {
        Some(d) => d,
        None => today,
    };
    if str_eq(input.schedule_mode.as_str(), "fixed") {
        match &input.season_anchor {
            Some(a) => {
                let years = #[verifier::truncate] ((match input.fixed_interval_years {
                    Some(y) => y,
                    None => 1,
                }) as u32);
                next_due_fixed_fits(base, a.as_str(), years)
            },
            None => true,
        }
    } else {
        true
    }
}

/// The first due date of a task: after `last_done` if given, else from today.
pub fn compute_initial_due_date(input: &TaskInput, today: Date, last_done: Option<Date>) -> (r:
    Result<Date, AppError>)
    requires
        today.wf(),
        last_done matches Some(d) ==> d.wf(),
        initial_due_input_defined(*input, today, last_done),
    ensures
        initial_due_outcome(*input, today, last_done, r),
        r matches Ok(d) ==> d.wf(),
{
    let value = match input.interval_value {
        Some(v) => Some(#[verifier::truncate] (v as u32)),
        None => None,
    };
    let unit = match &input.interval_unit {
        Some(u) => Some(u.as_str()),
        None => None,
    };
    let anchor = match &input.season_anchor {
        Some(a) => Some(a.as_str()),
        None => None,
    };
    let years = #[verifier::truncate] ((match input.fixed_interval_years {
        Some(y) => y,
        None => 1,
    }) as u32);
    assert(opt_view(unit) == opt_text(input.interval_unit));
    assert(opt_view(anchor) == opt_text(input.season_anchor));
    let rr = initial_due_date(today, last_done, input.schedule_mode.as_str(), value, unit, anchor, years);
    let r = match rr {
        Ok(d) => Ok(d),
        Err(e) => Err(AppError::BadRequest(e.message())),
    };
    assert(as_bad_request(r, rr));
    r
}

/// An update that gives no schedule values does not change the schedule, so the
/// reminder is not computed anew.
pub proof fn law_update_without_schedule_keeps_reminder(existing: Task, input: TaskInput)
    requires
        input.schedule_mode@.len() == 0,
        input.interval_value is None,
        input.interval_unit is None,
        input.season_anchor is None,
        input.fixed_interval_years is None,
    ensures
        !schedule_differs(existing, task_update_spec(existing, input)),
{
}

/// An update that changes the mode to a different one changes the schedule.
pub proof fn law_new_mode_changes_schedule(existing: Task, input: TaskInput)
    requires
        input.schedule_mode@.len() > 0,
        input.schedule_mode@ != existing.schedule_mode@,
    ensures
        schedule_differs(existing, task_update_spec(existing, input)),
{
}

/// Moving a schedule value of a task to a new one changes its schedule, so its
/// reminder is computed anew: a given interval, unit, season anchor or cadence that
/// differs from the stored one.
pub proof fn law_new_schedule_value_changes_schedule(existing: Task, input: TaskInput)
    ensures
        (input.interval_value matches Some(v) && existing.interval_value != Some(v)) ==> schedule_differs(
            existing,
            task_update_spec(existing, input),
        ),
        (input.interval_unit matches Some(u) && !(existing.interval_unit matches Some(e) && e@ == u@))
            ==> schedule_differs(existing, task_update_spec(existing, input)),
        (input.season_anchor matches Some(a) && !(existing.season_anchor matches Some(e) && e@ == a@))
            ==> schedule_differs(existing, task_update_spec(existing, input)),
        (input.fixed_interval_years matches Some(y) && existing.fixed_interval_years != Some(y))
            ==> schedule_differs(existing, task_update_spec(existing, input)),
{
}

/// A new fixed task keeps its cadence: counted from its last completion, or from
/// today where it was never done, a base on or after that year's anchor gives the
/// anchor `fixed_interval_years` (one where unset) years later; a base before it gives
/// that year's anchor.
pub proof fn law_fixed_input_keeps_its_cadence(
    input: TaskInput,
    today: Date,
    last_done: Option<Date>,
    r: Result<Date, AppError>,
    m: int,
    d: int,
    years: int,
)
    requires
        initial_due_outcome(input, today, last_done, r),
        input.schedule_mode@ == "fixed"@,
        input.season_anchor matches Some(a) && anchor_spec(a@) == Some((m, d)),
        years == match input.fixed_interval_years { Some(y) => y as int, None => 1 },
        1 <= years <= i32::MAX,
        anchor_exists(match last_done { Some(x) => x, None => today }.year as int, m, d),
        anchor_exists(match last_done { Some(x) => x, None => today }.year + years, m, d),
    ensures
        ({
            let base = match last_done { Some(x) => x, None => today };
            &&& !date_lt(base, anchor_in_year(base.year as int, m, d)) ==> r == Ok::<Date, AppError>(
                anchor_in_year(base.year + years, m, d),
            )
            &&& date_lt(base, anchor_in_year(base.year as int, m, d)) ==> r == Ok::<Date, AppError>(
                anchor_in_year(base.year as int, m, d),
            )
        }),
{
    reveal_strlit("fixed");
    reveal_strlit("floating");
    assert("fixed"@[1] != "floating"@[1]);
    assert(input_years(input) as int == years);
    assert(anchor_step(input_years(input)) == years);
    let rr = choose|rr: Result<Date, RecurrenceError>|
        initial_outcome(
            today,
            last_done,
            input.schedule_mode@,
            input_value(input),
            opt_text(input.interval_unit),
            opt_text(input.season_anchor),
            input_years(input),
            rr,
        ) && #[trigger] as_bad_request(r, rr);
}

} // verus!
