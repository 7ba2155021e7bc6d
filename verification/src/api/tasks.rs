//! Task payloads of the API and the rules of its task handlers.
use crate::calendar::{date_le, date_lt, chrono_add_days, chrono_parse, chrono_parse_error, chrono_parsed_date, date_text, epoch_day, max_date, Date};
use crate::domain::recurrence::{
    derive_status, law_snooze_expires, law_snooze_holds_upcoming, law_status_windows, status_spec,
    ReminderStatus,
};
use crate::error::AppError;
use crate::repo::tasks::TaskInput;
use crate::text::str_eq;
use vstd::prelude::*;

verus! {

/// The body of a request that creates a task.
#[derive(Debug, Clone, Default, PartialEq, Eq)]
pub struct CreateTaskPayload {
    pub asset_id: Option<String>,
    pub name: String,
    pub description: Option<String>,
    pub schedule_mode: String,
    pub interval_value: Option<i64>,
    pub interval_unit: Option<String>,
    pub season_anchor: Option<String>,
    pub fixed_interval_years: Option<i64>,
    pub estimated_minutes: Option<i64>,
    pub last_done_date: Option<String>,
}

/// The body of a request that updates a task; absent values keep the stored ones.
#[derive(Debug, Clone, Default, PartialEq, Eq)]
pub struct UpdateTaskPayload {
    pub asset_id: Option<String>,
    pub name: Option<String>,
    pub description: Option<String>,
    pub schedule_mode: Option<String>,
    pub interval_value: Option<i64>,
    pub interval_unit: Option<String>,
    pub season_anchor: Option<String>,
    pub fixed_interval_years: Option<i64>,
    pub estimated_minutes: Option<i64>,
    pub last_done_date: Option<String>,
}

/// The body of a request that records a task as done.
#[derive(Debug, Clone, Default, PartialEq, Eq)]
pub struct CompletePayload {
    pub completed_date: Option<String>,
    pub cost_cents: Option<i64>,
    pub vendor: Option<String>,
    pub performed_by: Option<String>,
    pub notes: Option<String>,
}

/// The body of a request that snoozes a task's reminder.
#[derive(Debug, Clone, Default, PartialEq, Eq)]
pub struct SnoozePayload {
    pub days: Option<i64>,
    pub until: Option<String>,
}

/// A new task names its schedule: a floating one its interval, a fixed one its anchor.
pub open spec fn payload_valid(p: CreateTaskPayload) -> bool {
    if p.schedule_mode@ == "floating"@ {
        p.interval_value is Some && p.interval_unit is Some
    } else if p.schedule_mode@ == "fixed"@ {
        p.season_anchor is Some
    } else {
        false
    }
}

pub fn validate_task_payload(payload: &CreateTaskPayload) -> (r: Result<(), AppError>)
    ensures
        r is Ok <==> payload_valid(*payload),
        payload.schedule_mode@ == "floating"@ && !payload_valid(*payload) ==> (r matches Err(
            AppError::BadRequest(m),
        ) && m@ == "floating schedule requires interval_value and interval_unit"@),
        payload.schedule_mode@ == "fixed"@ && !payload_valid(*payload) ==> (r matches Err(
            AppError::BadRequest(m),
        ) && m@ == "fixed schedule requires season_anchor"@),
        payload.schedule_mode@ != "floating"@ && payload.schedule_mode@ != "fixed"@ ==> (r matches Err(
            AppError::BadRequest(m),
        ) && m@ == "invalid schedule_mode: "@ + payload.schedule_mode@),
{
    proof {
        reveal_strlit("floating");
        reveal_strlit("fixed");
        assert("floating"@.len() != "fixed"@.len());
    }
    if str_eq(payload.schedule_mode.as_str(), "floating") {
        if payload.interval_value.is_none() || payload.interval_unit.is_none() {
            return Err(
                AppError::BadRequest(
                    String::from_str("floating schedule requires interval_value and interval_unit"),
                ),
            );
        }
    } else if str_eq(payload.schedule_mode.as_str(), "fixed") {
        if payload.season_anchor.is_none() {
            return Err(AppError::BadRequest(String::from_str("fixed schedule requires season_anchor")));
        }
    } else {
        return Err(
            AppError::BadRequest(
                String::from_str("invalid schedule_mode: ").concat(payload.schedule_mode.as_str()),
            ),
        );
    }
    Ok(())
}

/// The task fields of a create request.
pub fn task_input_from_payload(payload: &CreateTaskPayload) -> (r: TaskInput)
    ensures
        r == (TaskInput {
            asset_id: payload.asset_id,
            name: payload.name,
            description: payload.description,
            schedule_mode: payload.schedule_mode,
            interval_value: payload.interval_value,
            interval_unit: payload.interval_unit,
            season_anchor: payload.season_anchor,
            fixed_interval_years: payload.fixed_interval_years,
            estimated_minutes: payload.estimated_minutes,
        }),
{
    TaskInput {
        asset_id: payload.asset_id.clone(),
        name: payload.name.clone(),
        description: payload.description.clone(),
        schedule_mode: payload.schedule_mode.clone(),
        interval_value: payload.interval_value,
        interval_unit: payload.interval_unit.clone(),
        season_anchor: payload.season_anchor.clone(),
        fixed_interval_years: payload.fixed_interval_years,
        estimated_minutes: payload.estimated_minutes,
    }
}

pub open spec fn text_or_empty(o: Option<String>) -> Seq<char> {
    match o {
        Some(s) => s@,
        None => Seq::empty(),
    }
}

fn unwrap_or_empty(o: Option<String>) -> (r: String)
    ensures
        r@ == text_or_empty(o),
        o matches Some(s) ==> r == s,
{
    match o {
        Some(s) => s,
        None => String::new(),
    }
}

/// The task fields of an update request: an absent name or mode becomes empty, which
/// the update reads as "keep the stored one".
pub fn update_input_from_payload(payload: UpdateTaskPayload) -> (r: TaskInput)
    ensures
        r.name@ == text_or_empty(payload.name),
        r.schedule_mode@ == text_or_empty(payload.schedule_mode),
        r.asset_id == payload.asset_id,
        r.description == payload.description,
        r.interval_value == payload.interval_value,
        r.interval_unit == payload.interval_unit,
        r.season_anchor == payload.season_anchor,
        r.fixed_interval_years == payload.fixed_interval_years,
        r.estimated_minutes == payload.estimated_minutes,
{
    TaskInput {
        asset_id: payload.asset_id,
        name: unwrap_or_empty(payload.name),
        description: payload.description,
        schedule_mode: unwrap_or_empty(payload.schedule_mode),
        interval_value: payload.interval_value,
        interval_unit: payload.interval_unit,
        season_anchor: payload.season_anchor,
        fixed_interval_years: payload.fixed_interval_years,
        estimated_minutes: payload.estimated_minutes,
    }
}

/// The date a text parses to, if it does.
pub open spec fn parsed_date(s: Seq<char>) -> Option<Date> {
    match chrono_parsed_date(s) {
        Some((y, m, d)) => Some(Date { year: y, month: m, day: d }),
        None => None,
    }
}

pub open spec fn optional_date_spec(text: Option<String>) -> Option<Date> {
    match text {
        Some(s) => parsed_date(s@),
        None => None,
    }
}

/// The date of an optional text; a text that does not parse counts as absent.
pub fn optional_date(text: &Option<String>) -> (r: Option<Date>)
    ensures
        r == optional_date_spec(*text),
        r matches Some(d) ==> d.wf(),
{
    match text {
        Some(s) => match chrono_parse(s.as_str()) {
            Ok(d) => Some(d),
            Err(_) => None,
        },
        None => None,
    }
}

/// The completion date of a request: the given date if it parses, else today.
pub fn completed_date_or_today(text: &Option<String>, today: Date) -> (r: Date)
    requires
        today.wf(),
    ensures
        r == match optional_date_spec(*text) { Some(d) => d, None => today },
        r.wf(),
{
    match optional_date(text) {
        Some(d) => d,
        None => today,
    }
}

/// Until when a snooze lasts, per `snooze_until_date`.
pub open spec fn snooze_outcome(p: SnoozePayload, today: Date, r: Result<Date, AppError>) -> bool {
    match p.until {
        Some(u) => match parsed_date(u@) {
            Some(d) => r == Ok::<Date, AppError>(d),
            None => r matches Err(AppError::BadRequest(m)) && m@ == "invalid until date: "@
                + chrono_parse_error(u@),
        },
        None => {
            let days = match p.days { Some(d) => d as int, None => 7 };
            let n = if days < 1 { 1 } else { days };
            if epoch_day(today) + n <= epoch_day(max_date()) {
                r matches Ok(d) && d.wf() && epoch_day(d) == epoch_day(today) + n
            } else {
                r matches Err(AppError::BadRequest(m)) && m@ == "invalid snooze duration"@
            }
        },
    }
}

/// The last day of a snooze: the given date, or `days` (at least one, seven by
/// default) after today.
pub fn snooze_until_date(payload: &SnoozePayload, today: Date) -> (r: Result<Date, AppError>)
    requires
        today.wf(),
    ensures
        snooze_outcome(*payload, today, r),
        r matches Ok(d) ==> d.wf(),
{
    match &payload.until {
        Some(until) => match chrono_parse(until.as_str()) {
            Ok(d) => Ok(d),
            Err(e) => {
                let m = String::from_str("invalid until date: ").concat(e.as_str());
                assert(m@ == "invalid until date: "@ + e@);
                Err(AppError::BadRequest(m))
            },
        },
        None => {
            let days = match payload.days {
                Some(d) => d,
                None => 7,
            };
            let n: i64 = if days < 1 { 1 } else { days };
            match chrono_add_days(today, n as u64) {
                Some(d) => Ok(d),
                None => Err(AppError::BadRequest(String::from_str("invalid snooze duration"))),
            }
        },
    }
}

/// The status of a stored reminder seen today: an unreadable due date counts as
/// today, an unreadable snooze as none.
pub open spec fn status_from_texts_spec(today: Date, due: Seq<char>, snoozed: Option<String>) -> ReminderStatus {
    let due_date = match parsed_date(due) { Some(d) => d, None => today };
    status_spec(today, due_date, optional_date_spec(snoozed))
}

pub fn status_from_texts(today: Date, due: &str, snoozed: &Option<String>) -> (r: ReminderStatus)
    requires
        today.wf(),
    ensures
        r == status_from_texts_spec(today, due@, *snoozed),
{
    let due_date = match chrono_parse(due) {
        Ok(d) => d,
        Err(_) => today,
    };
    derive_status(today, due_date, optional_date(snoozed))
}

/// A due date written as text reads back as the same date, so a stored reminder has
/// the status of the date it was computed as.
pub proof fn law_stored_due_date_reads_back(today: Date, due: Date, text: String)
    requires
        due.wf(),
        text@ == date_text(due),
        chrono_parsed_date(text@) == Some((due.year, due.month, due.day)),
    ensures
        status_from_texts_spec(today, text@, None) == status_spec(today, due, None),
{
}

/// The status of a stored reminder with a readable due date: a readable snooze day
/// that has not passed keeps it upcoming; without a snooze, and once the snooze day
/// has passed, it is overdue when its due day has passed, due when that day is at most
/// seven days off (today included), and upcoming beyond.
pub proof fn law_status_of_stored_reminder(today: Date, due: Seq<char>, snoozed: Option<String>, due_date: Date)
    requires
        today.wf(),
        due_date.wf(),
        parsed_date(due) == Some(due_date),
        optional_date_spec(snoozed) matches Some(s) ==> s.wf(),
    ensures
        (optional_date_spec(snoozed) matches Some(s) && date_le(today, s)) ==> status_from_texts_spec(
            today,
            due,
            snoozed,
        ) == ReminderStatus::Upcoming,
        (optional_date_spec(snoozed) is None || (optional_date_spec(snoozed) matches Some(s) && date_lt(
            s,
            today,
        ))) ==> {
            &&& status_from_texts_spec(today, due, snoozed) == ReminderStatus::Overdue <==> epoch_day(due_date)
                < epoch_day(today)
            &&& status_from_texts_spec(today, due, snoozed) == ReminderStatus::Due <==> 0 <= epoch_day(due_date)
                - epoch_day(today) <= 7
            &&& status_from_texts_spec(today, due, snoozed) == ReminderStatus::Upcoming <==> epoch_day(due_date)
                - epoch_day(today) > 7
        },
{
    law_status_windows(today, due_date);
    match optional_date_spec(snoozed) {
        Some(s) => {
            if date_le(today, s) {
                law_snooze_holds_upcoming(today, due_date, s);
            } else if date_lt(s, today) {
                law_snooze_expires(today, due_date, s);
            }
        },
        None => {},
    }
}

} // verus!
