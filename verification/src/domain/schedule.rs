//! Schedules of maintenance tasks and their descriptions.
use crate::text::{decimal, decimal_string, find_char_from, parse_unsigned, parse_unsigned_spec, push_decimal, str_eq};
use vstd::prelude::*;

verus! {

/// How a task recurs.
#[derive(Debug, Clone, Copy, PartialEq, Eq, Structural)]
pub enum ScheduleMode {
    Floating,
    Fixed,
}

impl ScheduleMode {
    pub open spec fn text(self) -> Seq<char> {
        match self {
            ScheduleMode::Floating => "floating"@,
            ScheduleMode::Fixed => "fixed"@,
        }
    }

    /// The name of the mode, as stored and displayed.
    pub fn as_str(&self) -> (r: &'static str)
        ensures
            r@ == self.text(),
    {
        match self {
            ScheduleMode::Floating => "floating",
            ScheduleMode::Fixed => "fixed",
        }
    }
}

/// The unit of a floating interval.
#[derive(Debug, Clone, Copy, PartialEq, Eq, Structural)]
pub enum IntervalUnit {
    Day,
    Week,
    Month,
    Year,
}

impl IntervalUnit {
    pub open spec fn text(self) -> Seq<char> {
        match self {
            IntervalUnit::Day => "day"@,
            IntervalUnit::Week => "week"@,
            IntervalUnit::Month => "month"@,
            IntervalUnit::Year => "year"@,
        }
    }

    /// The name of the unit, as stored and displayed.
    pub fn as_str(&self) -> (r: &'static str)
        ensures
            r@ == self.text(),
    {
        match self {
            IntervalUnit::Day => "day",
            IntervalUnit::Week => "week",
            IntervalUnit::Month => "month",
            IntervalUnit::Year => "year",
        }
    }
}

/// A task's schedule: a fixed interval after each completion, or a yearly season anchor.
#[derive(Debug, Clone, PartialEq, Eq)]
pub enum Schedule {
    Floating { interval_value: u32, interval_unit: IntervalUnit },
    Fixed { season_anchor: String, fixed_interval_years: u32 },
}

impl Schedule {
    pub open spec fn spec_mode(self) -> ScheduleMode {
        match self {
            Schedule::Floating { .. } => ScheduleMode::Floating,
            Schedule::Fixed { .. } => ScheduleMode::Fixed,
        }
    }

    pub fn mode(&self) -> (r: ScheduleMode)
        ensures
            r == self.spec_mode(),
    {
        match self {
            Schedule::Floating { .. } => ScheduleMode::Floating,
            Schedule::Fixed { .. } => ScheduleMode::Fixed,
        }
    }

    /// The mode as stored in the database.
    pub fn to_db_mode(&self) -> (r: String)
        ensures
            r@ == self.spec_mode().text(),
    {
        String::from_str(self.mode().as_str())
    }
}

/// A failure to read a schedule.
#[derive(Debug)]
pub enum ScheduleError {
    InvalidAnchor(String),
}

impl ScheduleError {
    /// The message of the error.
    pub fn message(&self) -> (r: String)
        ensures
            r@ == match self {
                ScheduleError::InvalidAnchor(a) => "invalid season anchor: "@ + a@,
            },
    {
        match self {
            ScheduleError::InvalidAnchor(a) => String::from_str("invalid season anchor: ").concat(a.as_str()),
        }
    }
}

/// `s` holds exactly one `-`, at index `i`.
pub open spec fn single_dash_at(s: Seq<char>, i: int) -> bool {
    &&& 0 <= i < s.len()
    &&& s[i] == '-'
    &&& forall|j: int| 0 <= j < s.len() && j != i ==> s[j] != '-'
}

/// The (month, day) of an anchor text `MM-DD`: the text splits at `-` into exactly two
/// parts, each a `u32` as `str::parse` reads it, the month in 1..=12, the day in 1..=31.
pub open spec fn anchor_spec(s: Seq<char>) -> Option<(int, int)> {
    if exists|i: int| single_dash_at(s, i) {
        let i = choose|i: int| single_dash_at(s, i);
        match (
            parse_unsigned_spec(s.subrange(0, i), u32::MAX as int),
            parse_unsigned_spec(s.subrange(i + 1, s.len() as int), u32::MAX as int),
        ) {
            (Some(m), Some(d)) => if 1 <= m <= 12 && 1 <= d <= 31 {
                Some((m as int, d as int))
            } else {
                None
            },
            _ => None,
        }
    } else {
        None
    }
}

/// Reads a season anchor `MM-DD` into (month, day).
pub fn anchor_parts(anchor: &str) -> (r: Option<(u32, u32)>)
    ensures
        match anchor_spec(anchor@) {
            Some((m, d)) => r == Some((m as u32, d as u32)),
            None => r is None,
        },
{
    let n = anchor.unicode_len();
    let i = match find_char_from(anchor, '-', 0) {
        Some(i) => i,
        None => {
            assert(!exists|i: int| single_dash_at(anchor@, i));
            return None;
        },
    };
    match find_char_from(anchor, '-', i + 1) {
        Some(k) => {
            assert forall|j: int| !single_dash_at(anchor@, j) by {
                if single_dash_at(anchor@, j) {
                    assert(j == i && j == k);
                }
            }
            return None;
        },
        None => {},
    }
    assert(single_dash_at(anchor@, i as int));
    assert forall|j: int| single_dash_at(anchor@, j) implies j == i by {}
    let month = parse_unsigned(anchor.substring_char(0, i), u32::MAX as u64);
    let day = parse_unsigned(anchor.substring_char(i + 1, n), u32::MAX as u64);
    match (month, day) {
        (Some(m), Some(d)) => {
            if 1 <= m && m <= 12 && 1 <= d && d <= 31 {
                Some((m as u32, d as u32))
            } else {
                None
            }
        },
        _ => None,
    }
}

/// The most days that month `m` has in any year: Feb 29 is a valid anchor.
pub open spec fn max_days_in_month(m: int) -> int {
    if m == 2 {
        29
    } else if m == 4 || m == 6 || m == 9 || m == 11 {
        30
    } else {
        31
    }
}

fn max_days(m: u32) -> (r: u32)
    ensures
        r == max_days_in_month(m as int),
{
    if m == 2 {
        29
    } else if m == 4 || m == 6 || m == 9 || m == 11 {
        30
    } else {
        31
    }
}

/// Parse a season anchor like "10-15" into (month, day), validating the date: the day
/// must exist in that month in some year, so Feb 29 is accepted and Feb 30 is not.
pub fn parse_anchor(anchor: &str) -> (r: Result<(u32, u32), ScheduleError>)
    ensures
        match anchor_spec(anchor@) {
            Some((m, d)) => if d <= max_days_in_month(m) {
                r == Ok::<(u32, u32), ScheduleError>((m as u32, d as u32))
            } else {
                r matches Err(ScheduleError::InvalidAnchor(a)) && a@ == anchor@
            },
            None => r matches Err(ScheduleError::InvalidAnchor(a)) && a@ == anchor@,
        },
{
    match anchor_parts(anchor) {
        Some(p) => {
            if p.1 <= max_days(p.0) {
                Ok(p)
            } else {
                Err(ScheduleError::InvalidAnchor(String::from_str(anchor)))
            }
        },
        None => Err(ScheduleError::InvalidAnchor(String::from_str(anchor))),
    }
}

/// `"s"` unless the count is one.
pub open spec fn plural_suffix(n: int) -> Seq<char> {
    if n == 1 { ""@ } else { "s"@ }
}

/// The human-readable description of a schedule's stored fields.
pub open spec fn describe_spec(
    mode: Seq<char>,
    interval_value: Option<i64>,
    interval_unit: Option<Seq<char>>,
    season_anchor: Option<Seq<char>>,
    fixed_interval_years: Option<i64>,
) -> Seq<char> {
    if mode == "floating"@ {
        let value = (match interval_value { Some(v) => v, None => 1 }) as u32;
        let unit = match interval_unit { Some(u) => u, None => "month"@ };
        "every "@ + decimal(value as nat) + " "@ + unit + plural_suffix(value as int)
            + " after completion"@
    } else if mode == "fixed"@ {
        let anchor = match season_anchor { Some(a) => a, None => "?"@ };
        let years = (match fixed_interval_years { Some(y) => y, None => 1 }) as u32;
        if years == 1 {
            "every year on "@ + anchor
        } else {
            "every "@ + decimal(years as nat) + " years on "@ + anchor
        }
    } else {
        "unknown schedule"@
    }
}

pub open spec fn opt_view(o: Option<&str>) -> Option<Seq<char>> {
    match o {
        Some(s) => Some(s@),
        None => None,
    }
}

/// Human-readable description of a schedule.
pub fn describe_schedule(
    mode: &str,
    interval_value: Option<i64>,
    interval_unit: Option<&str>,
    season_anchor: Option<&str>,
    fixed_interval_years: Option<i64>,
) -> (r: String)
    ensures
        r@ == describe_spec(
            mode@,
            interval_value,
            opt_view(interval_unit),
            opt_view(season_anchor),
            fixed_interval_years,
        ),
{
    if str_eq(mode, "floating") {
        let value = (match interval_value { Some(v) => v, None => 1 }) as u32;
        let unit = match interval_unit { Some(u) => u, None => "month" };
        let mut s = String::from_str("every ");
        push_decimal(&mut s, value as u64);
        s.append(" ");
        s.append(unit);
        if value != 1 {
            s.append("s");
        } else {
            assert(s@ + ""@ =~= s@) by { reveal_strlit(""); }
        }
        s.append(" after completion");
        s
    } else if str_eq(mode, "fixed") {
        let anchor = match season_anchor { Some(a) => a, None => "?" };
        let years = (match fixed_interval_years { Some(y) => y, None => 1 }) as u32;
        if years == 1 {
            String::from_str("every year on ").concat(anchor)
        } else {
            let mut s = String::from_str("every ");
            push_decimal(&mut s, years as u64);
            s.append(" years on ");
            s.append(anchor);
            s
        }
    } else {
        String::from_str("unknown schedule")
    }
}

} // verus!
