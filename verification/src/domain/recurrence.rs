//! Pure recurrence engine for the reminder system.
//!
//! All calculations use calendar dates in the configured local timezone.
use crate::calendar::{
    chrono_add_days, chrono_add_months, chrono_parse, chrono_parse_error, chrono_parsed_date, lemma_epoch_day_order, chrono_days_since, chrono_from_ymd, chrono_pred, date_le,
    date_lt, days_in_month, epoch_day, is_leap, max_date, valid_ymd, Date, MAX_YEAR, MIN_YEAR,
};
use crate::domain::schedule::{anchor_parts, anchor_spec, opt_view};
use crate::text::str_eq;
use vstd::prelude::*;

verus! {

/// The visible state of a reminder.
#[derive(Debug, Clone, Copy, PartialEq, Eq, Structural)]
pub enum ReminderStatus {
    Upcoming,
    Due,
    Overdue,
}

impl ReminderStatus {
    pub open spec fn text(self) -> Seq<char> {
        match self {
            ReminderStatus::Upcoming => "upcoming"@,
            ReminderStatus::Due => "due"@,
            ReminderStatus::Overdue => "overdue"@,
        }
    }

    /// The name of the status.
    pub fn as_str(&self) -> (r: &'static str)
        ensures
            r@ == self.text(),
    {
        match self {
            ReminderStatus::Upcoming => "upcoming",
            ReminderStatus::Due => "due",
            ReminderStatus::Overdue => "overdue",
        }
    }
}

/// A failure of a recurrence computation.
#[derive(Debug, PartialEq, Eq)]
pub enum RecurrenceError {
    InvalidDate(String),
    InvalidAnchor(String),
}

impl RecurrenceError {
    pub open spec fn is_invalid_date(self, msg: Seq<char>) -> bool {
        self matches RecurrenceError::InvalidDate(m) && m@ == msg
    }

    pub open spec fn is_invalid_anchor(self, msg: Seq<char>) -> bool {
        self matches RecurrenceError::InvalidAnchor(m) && m@ == msg
    }

    pub open spec fn text(self) -> Seq<char> {
        match self {
            RecurrenceError::InvalidDate(m) => "invalid date: "@ + m@,
            RecurrenceError::InvalidAnchor(m) => "invalid anchor: "@ + m@,
        }
    }

    /// The message of the error.
    pub fn message(&self) -> (r: String)
        ensures
            r@ == self.text(),
    {
        match self {
            RecurrenceError::InvalidDate(m) => String::from_str("invalid date: ").concat(m.as_str()),
            RecurrenceError::InvalidAnchor(m) => String::from_str("invalid anchor: ").concat(
                m.as_str(),
            ),
        }
    }
}

/// A result that failed with `InvalidDate(msg)`.
pub open spec fn fails_invalid_date(r: Result<Date, RecurrenceError>, msg: Seq<char>) -> bool {
    r matches Err(e) && e.is_invalid_date(msg)
}

/// A result that failed with `InvalidAnchor(msg)`.
pub open spec fn fails_invalid_anchor(r: Result<Date, RecurrenceError>, msg: Seq<char>) -> bool {
    r matches Err(e) && e.is_invalid_anchor(msg)
}

/// The status of a reminder due on `due`, seen on `today`, perhaps snoozed until a day.
pub open spec fn status_spec(today: Date, due: Date, snoozed_until: Option<Date>) -> ReminderStatus {
    if snoozed_until matches Some(s) && date_le(today, s) {
        ReminderStatus::Upcoming
    } else if date_lt(due, today) {
        ReminderStatus::Overdue
    } else if epoch_day(due) - epoch_day(today) <= 7 {
        ReminderStatus::Due
    } else {
        ReminderStatus::Upcoming
    }
}

/// Derive the visible status of a reminder from its due date and optional snooze.
///
/// - Snoozed reminders report `upcoming` until `snoozed_until` (inclusive) has
///   passed, then re-derive from `due_date`.
/// - `overdue` = due date strictly before today.
/// - `due` = due date within 7 days inclusive of today, including today.
/// - `upcoming` = due date more than 7 days out.
pub fn derive_status(today: Date, due_date: Date, snoozed_until: Option<Date>) -> (r:
    ReminderStatus)
    requires
        today.wf(),
        due_date.wf(),
    ensures
        r == status_spec(today, due_date, snoozed_until),
{
    if let Some(snooze) = snoozed_until {
        if today.on_or_before(&snooze) {
            return ReminderStatus::Upcoming;
        }
    }
    if due_date.before(&today) {
        ReminderStatus::Overdue
    } else if chrono_days_since(due_date, today) <= 7 {
        ReminderStatus::Due
    } else {
        ReminderStatus::Upcoming
    }
}

/// Adding `months` months to `d`, keeping the day or clamping it to the month's end;
/// `None` where the month count does not fit in a `u32` or the result is out of range.
pub open spec fn add_months_spec(d: Date, months: int) -> Option<Date> {
    let idx = d.month_index() + months;
    if months < 0 || months > u32::MAX || idx > MAX_YEAR * 12 + 11 {
        None
    } else {
        let y = idx / 12;
        let m = idx % 12 + 1;
        let dim = days_in_month(y, m);
        let day = if d.day <= dim { d.day as int } else { dim };
        Some(Date { year: y as i32, month: m as u32, day: day as u32 })
    }
}

/// The last day of a month: the day before the first of the next month, and 31 for
/// December, whose next month may lie past the last supported year.
fn last_day_of_month(year: i32, month: u32) -> (r: u32)
    requires
        MIN_YEAR <= year <= MAX_YEAR,
        1 <= month <= 12,
    ensures
        r == days_in_month(year as int, month as int),
{
    if month == 12 {
        return 31;
    }
    match chrono_from_ymd(year, month + 1, 1) {
        Some(d) => match chrono_pred(d) {
            Some(p) => p.day,
            None => 28,
        },
        None => 28,
    }
}

fn overflow_error() -> (e: RecurrenceError)
    ensures
        e.is_invalid_date("overflow"@),
{
    RecurrenceError::InvalidDate(String::from_str("overflow"))
}

fn add_months(date: Date, months: i64) -> (r: Result<Date, RecurrenceError>)
    requires
        date.wf(),
    ensures
        match add_months_spec(date, months as int) {
            Some(x) => r == Ok::<Date, RecurrenceError>(x) && x.wf(),
            None => fails_invalid_date(r, "overflow"@),
        },
{
    if months < 0 || months > u32::MAX as i64 {
        return Err(overflow_error());
    }
    let m = months as u32;
    let target = match chrono_add_months(date, m) {
        Some(t) => t,
        None => return Err(overflow_error()),
    };
    assert(target.year == target.month_index() / 12 && target.month == target.month_index() % 12
        + 1);
    let last_day = last_day_of_month(target.year, target.month);
    if date.day > last_day {
        match chrono_from_ymd(target.year, target.month, last_day) {
            Some(d) => Ok(d),
            None => Err(RecurrenceError::InvalidDate(String::from_str("clamp failed"))),
        }
    } else {
        Ok(target)
    }
}

/// Adding `n` days to `d`: the date `n` days later, or the `overflow` error out of range.
pub open spec fn days_outcome(d: Date, n: int, r: Result<Date, RecurrenceError>) -> bool {
    if epoch_day(d) + n <= epoch_day(max_date()) {
        r matches Ok(x) && x.wf() && epoch_day(x) == epoch_day(d) + n
    } else {
        fails_invalid_date(r, "overflow"@)
    }
}

/// Adding `n` months to `d` as `add_months_spec` says, or the `overflow` error.
pub open spec fn months_outcome(d: Date, n: int, r: Result<Date, RecurrenceError>) -> bool {
    match add_months_spec(d, n) {
        Some(x) => r == Ok::<Date, RecurrenceError>(x) && x.wf(),
        None => fails_invalid_date(r, "overflow"@),
    }
}

/// The floating next due date: `completed + value unit`.
pub open spec fn floating_outcome(
    completed: Date,
    value: int,
    unit: Seq<char>,
    r: Result<Date, RecurrenceError>,
) -> bool {
    if unit == "day"@ {
        days_outcome(completed, value, r)
    } else if unit == "week"@ {
        days_outcome(completed, 7 * value, r)
    } else if unit == "month"@ {
        months_outcome(completed, value, r)
    } else if unit == "year"@ {
        months_outcome(completed, 12 * value, r)
    } else {
        fails_invalid_date(r, "unknown unit: "@ + unit)
    }
}

/// Compute a floating next due date: `completed_date + interval`.
///
/// Month arithmetic clamps to end of month (Jan 31 + 1 month = Feb 28/29).
pub fn next_due_floating(completed_date: Date, value: u32, unit: &str) -> (r: Result<
    Date,
    RecurrenceError,
>)
    requires
        completed_date.wf(),
    ensures
        floating_outcome(completed_date, value as int, unit@, r),
{
    let value = value as i64;
    if str_eq(unit, "day") {
        match chrono_add_days(completed_date, value as u64) {
            Some(d) => Ok(d),
            None => Err(overflow_error()),
        }
    } else if str_eq(unit, "week") {
        match chrono_add_days(completed_date, (value * 7) as u64) {
            Some(d) => Ok(d),
            None => Err(overflow_error()),
        }
    } else if str_eq(unit, "month") {
        add_months(completed_date, value)
    } else if str_eq(unit, "year") {
        add_months(completed_date, value * 12)
    } else {
        Err(RecurrenceError::InvalidDate(String::from_str("unknown unit: ").concat(unit)))
    }
}

/// An anchor on Feb 29 falls on Feb 28 in years that are not leap years.
pub open spec fn anchor_day_spec(y: int, m: int, d: int) -> int {
    if m == 2 && d == 29 && !is_leap(y) { 28 } else { d }
}

/// The anchor's date in year `y`.
pub open spec fn anchor_in_year(y: int, m: int, d: int) -> Date {
    Date { year: y as i32, month: m as u32, day: anchor_day_spec(y, m, d) as u32 }
}

/// The anchor's day exists in year `y`, and `y` is in range.
pub open spec fn anchor_exists(y: int, m: int, d: int) -> bool {
    valid_ymd(y, m, anchor_day_spec(y, m, d))
}

/// The number of years between occurrences, as the step added to a year.
pub open spec fn anchor_step(fixed_interval_years: u32) -> int {
    (if fixed_interval_years < 1 { 1u32 } else { fixed_interval_years }) as i32 as int
}

/// The year arithmetic of the search for the next anchor stays within `i32`: a positive
/// step once from the reference year, a negative step down to the lowest in-range year
/// of the reference year's class and once more.
pub open spec fn fixed_steps_fit(reference_year: int, step: int) -> bool {
    if step > 0 {
        reference_year + step <= i32::MAX
    } else {
        MIN_YEAR + (reference_year - MIN_YEAR) % (-step) + step >= i32::MIN
    }
}

/// `next_due_fixed` runs without an arithmetic overflow on these inputs.
pub open spec fn next_due_fixed_defined(reference: Date, anchor: Seq<char>, fixed_interval_years: u32) -> bool {
    match anchor_spec(anchor) {
        Some((m, d)) => anchor_exists(reference.year as int, m, d) && !date_lt(
            reference,
            anchor_in_year(reference.year as int, m, d),
        ) ==> fixed_steps_fit(reference.year as int, anchor_step(fixed_interval_years)),
        None => true,
    }
}

/// The next fixed occurrence, or the `InvalidAnchor` error.
pub open spec fn fixed_outcome(
    reference: Date,
    anchor: Seq<char>,
    fixed_interval_years: u32,
    r: Result<Date, RecurrenceError>,
) -> bool {
    match anchor_spec(anchor) {
        None => fails_invalid_anchor(r, anchor),
        Some((m, d)) => {
            let y = reference.year as int;
            let step = anchor_step(fixed_interval_years);
            if !anchor_exists(y, m, d) {
                fails_invalid_anchor(r, anchor)
            } else if date_lt(reference, anchor_in_year(y, m, d)) {
                r == Ok::<Date, RecurrenceError>(anchor_in_year(y, m, d))
            } else if step > 0 && anchor_exists(y + step, m, d) {
                r == Ok::<Date, RecurrenceError>(anchor_in_year(y + step, m, d))
            } else {
                fails_invalid_anchor(r, anchor)
            }
        },
    }
}

/// Whether a year is a leap year in the Gregorian calendar.
pub fn is_leap_year(year: i32) -> (r: bool)
    ensures
        r == is_leap(year as int),
{
    (year % 4 == 0 && year % 100 != 0) || (year % 400 == 0)
}

/// The day an anchor falls on in a year: Feb 29 becomes Feb 28 outside leap years.
pub fn resolve_anchor_day(year: i32, month: u32, anchor_day: u32) -> (r: u32)
    ensures
        r == anchor_day_spec(year as int, month as int, anchor_day as int),
{
    if month == 2 && anchor_day == 29 && !is_leap_year(year) {
        28
    } else {
        anchor_day
    }
}

/// Reads an anchor `MM-DD` into (month, day).
pub fn parse_anchor(anchor: &str) -> (r: Result<(u32, u32), RecurrenceError>)
    ensures
        match anchor_spec(anchor@) {
            Some((m, d)) => r == Ok::<(u32, u32), RecurrenceError>((m as u32, d as u32)),
            None => r matches Err(e) && e.is_invalid_anchor(anchor@),
        },
{
    match anchor_parts(anchor) {
        Some(p) => Ok(p),
        None => Err(RecurrenceError::InvalidAnchor(String::from_str(anchor))),
    }
}

fn anchor_date(year: i32, month: u32, day: u32, anchor: &str) -> (r: Result<Date, RecurrenceError>)
    requires
        1 <= month <= 12,
        1 <= day <= 31,
    ensures
        anchor_exists(year as int, month as int, day as int) ==> r == Ok::<Date, RecurrenceError>(
            anchor_in_year(year as int, month as int, day as int),
        ),
        !anchor_exists(year as int, month as int, day as int) ==> fails_invalid_anchor(r, anchor@),
        r matches Ok(x) ==> x.wf(),
{
    let day = resolve_anchor_day(year, month, day);
    match chrono_from_ymd(year, month, day) {
        Some(d) => Ok(d),
        None => Err(RecurrenceError::InvalidAnchor(String::from_str(anchor))),
    }
}

/// Compute the next fixed occurrence of a season anchor strictly after a given
/// reference date.
///
/// The anchor is "MM-DD". The result is the next anchor on or after the
/// reference date, but strictly after if the reference date is already the
/// anchor itself. For anchors on Feb 29 in non-leap years, resolve to Feb 28.
///
/// `fixed_interval_years` controls how many years to advance when the reference
/// date is already past the anchor in the current year.
pub fn next_due_fixed(reference: Date, anchor: &str, fixed_interval_years: u32) -> (r: Result<
    Date,
    RecurrenceError,
>)
    requires
        reference.wf(),
        next_due_fixed_defined(reference, anchor@, fixed_interval_years),
    ensures
        fixed_outcome(reference, anchor@, fixed_interval_years, r),
        r matches Ok(x) ==> x.wf(),
{
    let (month, day) = match parse_anchor(anchor) {
        Ok(p) => p,
        Err(e) => return Err(e),
    };
    let years: u32 = if fixed_interval_years < 1 { 1 } else { fixed_interval_years };
    let step32: i32 = #[verifier::truncate] (years as i32);
    let ghost step = step32 as int;
    let ghost y0 = reference.year as int;
    let ghost m0 = month as int;
    let ghost d0 = day as int;
    assert(anchor_spec(anchor@) == Some((m0, d0)));
    assert(step == anchor_step(fixed_interval_years));
    assert(years >= 1 ==> (years as i32) != 0) by (bit_vector);
    assert(step != 0);
    let current_year_anchor = match anchor_date(reference.year, month, day, anchor) {
        Ok(c) => c,
        Err(e) => return Err(e),
    };
    let mut candidate = if reference.before(&current_year_anchor) {
        current_year_anchor
    } else if reference.on_or_before(&current_year_anchor) {
        proof { lemma_first_step_fits(y0, step); }
        let c = match anchor_date(reference.year + step32, month, day, anchor) {
            Ok(c) => c,
            Err(e) => return Err(e),
        };
        proof {
            if step < 0 {
                vstd::arithmetic::div_mod::lemma_mod_self_0(-step);
            }
        }
        c
    } else {
        proof { lemma_first_step_fits(y0, step); }
        let diff = (reference.year - current_year_anchor.year) as u32;
        assert(diff == 0);
        assert(diff / years == 0);
        assert(1 * years == years);
        let years_past = (diff / years + 1) * years;
        assert(years_past == years);
        let c = match anchor_date(
            current_year_anchor.year + #[verifier::truncate] (years_past as i32),
            month,
            day,
            anchor,
        ) {
            Ok(c) => c,
            Err(e) => return Err(e),
        };
        proof {
            if step < 0 {
                vstd::arithmetic::div_mod::lemma_mod_self_0(-step);
            }
        }
        c
    };
    while candidate.on_or_before(&reference)
        invariant
            reference.wf(),
            candidate.wf(),
            1 <= month <= 12,
            1 <= day <= 31,
            m0 == month,
            d0 == day,
            anchor_spec(anchor@) == Some((m0, d0)),
            step == anchor_step(fixed_interval_years),
            step == step32,
            step != 0,
            y0 == reference.year,
            anchor_exists(y0, m0, d0),
            candidate == anchor_in_year(candidate.year as int, m0, d0),
            date_lt(reference, anchor_in_year(y0, m0, d0)) ==> candidate == anchor_in_year(y0, m0, d0),
            !date_lt(reference, anchor_in_year(y0, m0, d0)) ==> {
                &&& fixed_steps_fit(y0, step)
                &&& step > 0 ==> candidate.year == y0 + step
                &&& step < 0 ==> candidate.year < y0 && (y0 - candidate.year) % (-step) == 0
            },
        decreases candidate.year - MIN_YEAR,
    {
        assert(step < 0);
        proof {
            let k = -step;
            let low = MIN_YEAR + (y0 - MIN_YEAR) % k;
            assert(candidate.year >= low) by {
                lemma_class_floor(y0 - MIN_YEAR, candidate.year - MIN_YEAR, k);
            }
        }
        let ghost prev = candidate.year;
        candidate = match anchor_date(candidate.year + step32, month, day, anchor) {
            Ok(c) => c,
            Err(e) => return Err(e),
        };
        proof {
            assert((y0 - candidate.year) % (-step) == 0) by {
                lemma_mod_step(y0 - prev, -step);
            }
        }
    }
    Ok(candidate)
}

/// In the class of `a` modulo `k`, the non-negative members are at least `a % k`.
proof fn lemma_class_floor(a: int, b: int, k: int)
    requires
        k > 0,
        a >= 0,
        b >= 0,
        b <= a,
        (a - b) % k == 0,
    ensures
        b >= a % k,
{
    vstd::arithmetic::div_mod::lemma_fundamental_div_mod(a, k);
    vstd::arithmetic::div_mod::lemma_fundamental_div_mod(a - b, k);
    vstd::arithmetic::div_mod::lemma_mod_bound(a, k);
    let q = (a - b) / k;
    let p = a / k;
    let r = a % k;
    assert(a == k * p + r);
    assert(a - b == k * q);
    assert(b >= r) by (nonlinear_arith)
        requires
            a == k * p + r,
            a - b == k * q,
            b >= 0,
            0 <= r < k,
            k > 0,
    {
        assert(b == k * (p - q) + r);
        if p - q < 0 {
            assert(k * (p - q) <= -k);
        } else {
            assert(k * (p - q) >= 0);
        }
    }
}

/// The first step from the reference year stays within `i32`.
proof fn lemma_first_step_fits(y0: int, step: int)
    requires
        MIN_YEAR <= y0 <= MAX_YEAR,
        step != 0,
        i32::MIN <= step <= i32::MAX,
        fixed_steps_fit(y0, step),
    ensures
        i32::MIN <= y0 + step <= i32::MAX,
{
    if step < 0 {
        vstd::arithmetic::div_mod::lemma_small_mod(0, (-step) as nat);
        lemma_class_floor(y0 - MIN_YEAR, y0 - MIN_YEAR, -step);
    }
}

/// Adding `k` keeps a multiple of `k` a multiple of `k`.
proof fn lemma_mod_step(x: int, k: int)
    requires
        k > 0,
        x % k == 0,
    ensures
        (x + k) % k == 0,
{
    vstd::arithmetic::div_mod::lemma_mod_add_multiples_vanish(x, k);
}

/// Checks `next_due_fixed_defined`, so that callers can refuse inputs on which the
/// year arithmetic of `next_due_fixed` would overflow.
pub fn next_due_fixed_fits(reference: Date, anchor: &str, fixed_interval_years: u32) -> (r: bool)
    requires
        reference.wf(),
    ensures
        r == next_due_fixed_defined(reference, anchor@, fixed_interval_years),
{
    let (month, day) = match anchor_parts(anchor) {
        Some(p) => p,
        None => return true,
    };
    let current = match anchor_date(reference.year, month, day, anchor) {
        Ok(c) => c,
        Err(_) => return true,
    };
    if reference.before(&current) {
        return true;
    }
    let years: u32 = if fixed_interval_years < 1 { 1 } else { fixed_interval_years };
    let step: i64 = (#[verifier::truncate] (years as i32)) as i64;
    assert(years >= 1 ==> (years as i32) != 0) by (bit_vector);
    let y0: i64 = reference.year as i64;
    if step > 0 {
        y0 + step <= i32::MAX as i64
    } else {
        let a = (y0 - MIN_YEAR as i64) as u64;
        let k = (-step) as u64;
        let rest = (a % k) as i64;
        assert(rest == (y0 - MIN_YEAR) % (-step));
        MIN_YEAR as i64 + rest + step >= i32::MIN as i64
    }
}

/// Convenience: parse an ISO date string to a date.
pub fn parse_date(s: &str) -> (r: Result<Date, RecurrenceError>)
    ensures
        match chrono_parsed_date(s@) {
            Some((y, m, d)) => r == Ok::<Date, RecurrenceError>(Date { year: y, month: m, day: d }),
            None => r matches Err(RecurrenceError::InvalidDate(msg)) && msg@ == s@ + ": "@
                + chrono_parse_error(s@),
        },
        r matches Ok(d) ==> d.wf(),
{
    match chrono_parse(s) {
        Ok(d) => Ok(d),
        Err(e) => {
            let msg = String::from_str(s).concat(": ").concat(e.as_str());
            assert(msg@ == s@ + ": "@ + e@);
            Err(RecurrenceError::InvalidDate(msg))
        },
    }
}

/// The date a new task is first due, per `initial_due_date`.
pub open spec fn initial_outcome(
    today: Date,
    last_done: Option<Date>,
    schedule_mode: Seq<char>,
    interval_value: Option<u32>,
    interval_unit: Option<Seq<char>>,
    season_anchor: Option<Seq<char>>,
    fixed_interval_years: u32,
    r: Result<Date, RecurrenceError>,
) -> bool {
    let base = match last_done { Some(d) => d, None => today };
    if schedule_mode == "floating"@ {
        floating_outcome(
            base,
            match interval_value { Some(v) => v as int, None => 1 },
            match interval_unit { Some(u) => u, None => "month"@ },
            r,
        )
    } else if schedule_mode == "fixed"@ {
        match season_anchor {
            None => fails_invalid_anchor(r, "missing season_anchor"@),
            Some(a) => fixed_outcome(base, a, fixed_interval_years, r),
        }
    } else {
        fails_invalid_date(r, "unknown schedule mode: "@ + schedule_mode)
    }
}

/// `initial_due_date` runs without an arithmetic overflow on these inputs.
pub open spec fn initial_due_defined(
    today: Date,
    last_done: Option<Date>,
    schedule_mode: Seq<char>,
    season_anchor: Option<Seq<char>>,
    fixed_interval_years: u32,
) -> bool {
    let base = match last_done { Some(d) => d, None => today };
    schedule_mode == "fixed"@ && season_anchor is Some ==> next_due_fixed_defined(
        base,
        season_anchor->0,
        fixed_interval_years,
    )
}

/// Initial due date for a newly created task.
///
/// - If `last_done` is provided, compute the next occurrence after that date.
/// - Otherwise, for floating tasks use today + interval; for fixed tasks use
///   the next anchor after today.
pub fn initial_due_date(
    today: Date,
    last_done: Option<Date>,
    schedule_mode: &str,
    interval_value: Option<u32>,
    interval_unit: Option<&str>,
    season_anchor: Option<&str>,
    fixed_interval_years: u32,
) -> (r: Result<Date, RecurrenceError>)
    requires
        today.wf(),
        last_done matches Some(d) ==> d.wf(),
        initial_due_defined(today, last_done, schedule_mode@, opt_view(season_anchor), fixed_interval_years),
    ensures
        initial_outcome(
            today,
            last_done,
            schedule_mode@,
            interval_value,
            opt_view(interval_unit),
            opt_view(season_anchor),
            fixed_interval_years,
            r,
        ),
        r matches Ok(d) ==> d.wf(),
{
    let base = match last_done {
        Some(d) => d,
        None => today,
    };
    if str_eq(schedule_mode, "floating") {
        let value = match interval_value {
            Some(v) => v,
            None => 1,
        };
        let unit = match interval_unit {
            Some(u) => u,
            None => "month",
        };
        let r = next_due_floating(base, value, unit);
        proof { lemma_floating_wf(base, value as int, unit@, r); }
        r
    } else if str_eq(schedule_mode, "fixed") {
        match season_anchor {
            None => Err(RecurrenceError::InvalidAnchor(String::from_str("missing season_anchor"))),
            Some(anchor) => next_due_fixed(base, anchor, fixed_interval_years),
        }
    } else {
        Err(
            RecurrenceError::InvalidDate(
                String::from_str("unknown schedule mode: ").concat(schedule_mode),
            ),
        )
    }
}

/// A floating next due date is a valid date.
pub proof fn lemma_floating_wf(
    completed: Date,
    value: int,
    unit: Seq<char>,
    r: Result<Date, RecurrenceError>,
)
    requires
        floating_outcome(completed, value, unit, r),
    ensures
        r matches Ok(d) ==> d.wf(),
{
}

/// Without a snooze, a reminder is overdue exactly when its due day has passed, due
/// exactly when it falls within the coming seven days (today included), and upcoming
/// exactly when it lies further out.
pub proof fn law_status_windows(today: Date, due: Date)
    requires
        today.wf(),
        due.wf(),
    ensures
        status_spec(today, due, None) == ReminderStatus::Overdue <==> epoch_day(due) < epoch_day(today),
        status_spec(today, due, None) == ReminderStatus::Due <==> 0 <= epoch_day(due) - epoch_day(today) <= 7,
        status_spec(today, due, None) == ReminderStatus::Upcoming <==> epoch_day(due) - epoch_day(today) > 7,
{
    lemma_epoch_day_order(due, today);
}

/// A reminder snoozed until a day is upcoming through that day, whatever its due date.
pub proof fn law_snooze_holds_upcoming(today: Date, due: Date, snoozed_until: Date)
    requires
        date_le(today, snoozed_until),
    ensures
        status_spec(today, due, Some(snoozed_until)) == ReminderStatus::Upcoming,
{
}

/// After the snooze day has passed, the status is derived from the due date alone.
pub proof fn law_snooze_expires(today: Date, due: Date, snoozed_until: Date)
    requires
        today.wf(),
        snoozed_until.wf(),
        date_lt(snoozed_until, today),
    ensures
        status_spec(today, due, Some(snoozed_until)) == status_spec(today, due, None),
{
    lemma_epoch_day_order(today, snoozed_until);
}

/// A floating interval of at least one unit moves the due date strictly past the
/// completion date.
pub proof fn law_floating_after_completion(
    completed: Date,
    value: int,
    unit: Seq<char>,
    r: Result<Date, RecurrenceError>,
)
    requires
        completed.wf(),
        value >= 1,
        floating_outcome(completed, value, unit, r),
        r is Ok,
    ensures
        date_lt(completed, r->Ok_0),
{
    let x = r->Ok_0;
    if unit == "day"@ || unit == "week"@ {
        lemma_epoch_day_order(completed, x);
        lemma_epoch_day_order(x, completed);
    } else {
        let n = if unit == "month"@ { value } else { 12 * value };
        let idx = completed.month_index() + n;
        assert(x.year == idx / 12 && x.month == idx % 12 + 1);
        assert(x.year * 12 + x.month - 1 == idx);
    }
}

/// A fixed schedule's next due date lies strictly after the reference date and on
/// the anchor: its month, and its day (Feb 29 falling back to Feb 28 outside leap
/// years).
pub proof fn law_fixed_after_reference_on_anchor(
    reference: Date,
    anchor: Seq<char>,
    fixed_interval_years: u32,
    r: Result<Date, RecurrenceError>,
)
    requires
        reference.wf(),
        fixed_outcome(reference, anchor, fixed_interval_years, r),
        r is Ok,
    ensures
        date_lt(reference, r->Ok_0),
        anchor_spec(anchor) matches Some((m, d)) && r->Ok_0 == anchor_in_year(r->Ok_0.year as int, m, d),
{
}

/// With a yearly cadence, the next due date is the first anchor occurrence after the
/// reference date: no occurrence of the anchor lies strictly between them.
pub proof fn law_fixed_yearly_is_next_occurrence(
    reference: Date,
    anchor: Seq<char>,
    fixed_interval_years: u32,
    r: Result<Date, RecurrenceError>,
    z: Date,
)
    requires
        reference.wf(),
        fixed_interval_years <= 1,
        fixed_outcome(reference, anchor, fixed_interval_years, r),
        r is Ok,
        date_lt(reference, z),
        date_lt(z, r->Ok_0),
    ensures
        anchor_spec(anchor) matches Some((m, d)) && z != anchor_in_year(z.year as int, m, d),
{
    assert(anchor_step(fixed_interval_years) == 1);
}

/// A fixed schedule's next due date does not depend on how early in the cycle the
/// task was done: every reference date before this year's anchor gives that anchor.
pub proof fn law_fixed_early_completion_keeps_anchor(
    r1: Date,
    r2: Date,
    anchor: Seq<char>,
    fixed_interval_years: u32,
    a: Result<Date, RecurrenceError>,
    b: Result<Date, RecurrenceError>,
)
    requires
        r1.year == r2.year,
        anchor_spec(anchor) matches Some((m, d)) && anchor_exists(r1.year as int, m, d) && date_lt(
            r1,
            anchor_in_year(r1.year as int, m, d),
        ) && date_lt(r2, anchor_in_year(r2.year as int, m, d)),
        fixed_outcome(r1, anchor, fixed_interval_years, a),
        fixed_outcome(r2, anchor, fixed_interval_years, b),
    ensures
        a == b,
{
}


/// A new task is first due on the next due date counted from its last completion, or
/// from today where it was never done: the floating interval or the fixed anchor
/// applied to that base date.
pub proof fn law_initial_due_from_base(
    today: Date,
    last_done: Option<Date>,
    schedule_mode: Seq<char>,
    interval_value: Option<u32>,
    interval_unit: Option<Seq<char>>,
    season_anchor: Option<Seq<char>>,
    fixed_interval_years: u32,
    r: Result<Date, RecurrenceError>,
)
    requires
        initial_outcome(
            today,
            last_done,
            schedule_mode,
            interval_value,
            interval_unit,
            season_anchor,
            fixed_interval_years,
            r,
        ),
    ensures
        schedule_mode == "floating"@ ==> floating_outcome(
            match last_done { Some(d) => d, None => today },
            match interval_value { Some(v) => v as int, None => 1 },
            match interval_unit { Some(u) => u, None => "month"@ },
            r,
        ),
        schedule_mode == "fixed"@ && season_anchor is Some ==> fixed_outcome(
            match last_done { Some(d) => d, None => today },
            season_anchor->0,
            fixed_interval_years,
            r,
        ),
{
    reveal_strlit("fixed");
    reveal_strlit("floating");
    assert("fixed"@[1] != "floating"@[1]);
}

/// Once a task was done, the day it is created on has no effect on its first due
/// date: two creation days give the same date, or errors with the same message.
pub proof fn law_initial_due_ignores_today_after_completion(
    today1: Date,
    today2: Date,
    last_done: Date,
    schedule_mode: Seq<char>,
    interval_value: Option<u32>,
    interval_unit: Option<Seq<char>>,
    season_anchor: Option<Seq<char>>,
    fixed_interval_years: u32,
    r1: Result<Date, RecurrenceError>,
    r2: Result<Date, RecurrenceError>,
)
    requires
        last_done.wf(),
        initial_outcome(
            today1,
            Some(last_done),
            schedule_mode,
            interval_value,
            interval_unit,
            season_anchor,
            fixed_interval_years,
            r1,
        ),
        initial_outcome(
            today2,
            Some(last_done),
            schedule_mode,
            interval_value,
            interval_unit,
            season_anchor,
            fixed_interval_years,
            r2,
        ),
    ensures
        r1 is Ok <==> r2 is Ok,
        r1 is Ok ==> r1 == r2,
        r1 is Err && r2 is Err ==> r1->Err_0.text() == r2->Err_0.text(),
{
    if let (Ok(x1), Ok(x2)) = (r1, r2) {
        lemma_epoch_day_order(x1, x2);
        lemma_epoch_day_order(x2, x1);
    }
}

} // verus!
