//! Calendar dates in the proleptic Gregorian calendar, as `chrono` supports them.
use chrono::Datelike;
use vstd::prelude::*;
use crate::text::{decimal, digit_char, zero_pad};

verus! {

/// The earliest year that a date can have.
pub const MIN_YEAR: i32 = -262143;

/// The latest year that a date can have.
pub const MAX_YEAR: i32 = 262142;

pub open spec fn is_leap(y: int) -> bool {
    (y % 4 == 0 && y % 100 != 0) || y % 400 == 0
}

pub open spec fn days_in_month(y: int, m: int) -> int {
    if m == 2 {
        if is_leap(y) { 29 } else { 28 }
    } else if m == 4 || m == 6 || m == 9 || m == 11 {
        30
    } else {
        31
    }
}

/// A calendar day that exists and lies in the supported range of years.
pub open spec fn valid_ymd(y: int, m: int, d: int) -> bool {
    &&& MIN_YEAR <= y <= MAX_YEAR
    &&& 1 <= m <= 12
    &&& 1 <= d <= days_in_month(y, m)
}

/// A calendar date (year, month 1..=12, day 1..=31).
#[derive(Clone, Copy, Debug, PartialEq, Eq, Structural)]
pub struct Date {
    pub year: i32,
    pub month: u32,
    pub day: u32,
}

impl Date {
    pub open spec fn wf(self) -> bool {
        valid_ymd(self.year as int, self.month as int, self.day as int)
    }

    /// Months since January of year 0.
    pub open spec fn month_index(self) -> int {
        self.year * 12 + self.month - 1
    }
}

/// `a` comes strictly before `b`.
pub open spec fn date_lt(a: Date, b: Date) -> bool {
    ||| a.year < b.year
    ||| a.year == b.year && a.month < b.month
    ||| a.year == b.year && a.month == b.month && a.day < b.day
}

pub open spec fn date_le(a: Date, b: Date) -> bool {
    date_lt(a, b) || a == b
}

/// Number of days in the years before year `y` (counting from year 1).
pub open spec fn days_before_year(y: int) -> int {
    365 * (y - 1) + (y - 1) / 4 - (y - 1) / 100 + (y - 1) / 400
}

/// Number of days in the months of year `y` before month `m`.
pub open spec fn days_before_month(y: int, m: int) -> int {
    let base: int = if m == 1 { 0 }
        else if m == 2 { 31 }
        else if m == 3 { 59 }
        else if m == 4 { 90 }
        else if m == 5 { 120 }
        else if m == 6 { 151 }
        else if m == 7 { 181 }
        else if m == 8 { 212 }
        else if m == 9 { 243 }
        else if m == 10 { 273 }
        else if m == 11 { 304 }
        else { 334 };
    if m > 2 && is_leap(y) { base + 1 } else { base }
}

/// The day number of a date: consecutive calendar days have consecutive numbers.
pub open spec fn epoch_day(d: Date) -> int {
    days_before_year(d.year as int) + days_before_month(d.year as int, d.month as int) + d.day
}

/// The first supported date.
pub open spec fn is_min_date(d: Date) -> bool {
    d.year == MIN_YEAR && d.month == 1 && d.day == 1
}

/// The last supported date.
pub open spec fn max_date() -> Date {
    Date { year: MAX_YEAR, month: 12, day: 31 }
}

impl Date {
    /// The `%Y-%m-%d` text of the date.
    pub fn to_iso_string(&self) -> (r: String)
        requires
            self.wf(),
        ensures
            r@ == date_text(*self),
            chrono_parsed_date(r@) == Some((self.year, self.month, self.day)),
    {
        chrono_date_text(*self)
    }

    /// This date comes strictly before `other`.
    pub fn before(&self, other: &Date) -> (r: bool)
        ensures
            r == date_lt(*self, *other),
    {
        self.year < other.year || (self.year == other.year && (self.month < other.month || (
        self.month == other.month && self.day < other.day)))
    }

    /// This date is `other` or comes before it.
    pub fn on_or_before(&self, other: &Date) -> (r: bool)
        ensures
            r == date_le(*self, *other),
    {
        self.before(other) || (self.year == other.year && self.month == other.month && self.day
            == other.day)
    }
}

/// `y / k` steps up by one exactly at multiples of `k`.
proof fn lemma_floor_step(y: int, k: int)
    requires
        k > 0,
    ensures
        y / k - (y - 1) / k == if y % k == 0 { 1int } else { 0int },
{
    vstd::arithmetic::div_mod::lemma_fundamental_div_mod(y, k);
    vstd::arithmetic::div_mod::lemma_fundamental_div_mod(y - 1, k);
    vstd::arithmetic::div_mod::lemma_mod_bound(y, k);
    vstd::arithmetic::div_mod::lemma_mod_bound(y - 1, k);
    let q1 = y / k;
    let q0 = (y - 1) / k;
    let r1 = y % k;
    let r0 = (y - 1) % k;
    assert(k * q1 + r1 - (k * q0 + r0) == 1);
    assert(q1 - q0 == if r1 == 0 { 1int } else { 0int }) by (nonlinear_arith)
        requires
            k * q1 + r1 - (k * q0 + r0) == 1,
            0 <= r1 < k,
            0 <= r0 < k,
            k > 0,
    {
        if q1 - q0 >= 2 {
            assert(k * (q1 - q0) >= 2 * k);
        }
        if q1 - q0 <= -1 {
            assert(k * (q1 - q0) <= -k);
        }
        if q1 - q0 == 1 {
            assert(k * q1 - k * q0 == k);
        }
        if q1 - q0 == 0 {
            assert(k * q1 - k * q0 == 0);
        }
    }
}

/// A year has 365 days, or 366 in a leap year.
pub proof fn lemma_year_length(y: int)
    ensures
        days_before_year(y + 1) - days_before_year(y) == if is_leap(y) { 366int } else { 365int },
{
    lemma_floor_step(y, 4);
    lemma_floor_step(y, 100);
    lemma_floor_step(y, 400);
    if y % 400 == 0 {
        assert(y % 100 == 0 && y % 4 == 0) by {
            vstd::arithmetic::div_mod::lemma_fundamental_div_mod(y, 400);
            vstd::arithmetic::div_mod::lemma_mod_multiples_basic(4 * (y / 400), 100);
            vstd::arithmetic::div_mod::lemma_mod_multiples_basic(100 * (y / 400), 4);
            assert(y == 400 * (y / 400));
            assert(y == 100 * (4 * (y / 400)));
            assert(y == 4 * (100 * (y / 400)));
        }
    }
    if y % 100 == 0 {
        assert(y % 4 == 0) by {
            vstd::arithmetic::div_mod::lemma_fundamental_div_mod(y, 100);
            vstd::arithmetic::div_mod::lemma_mod_multiples_basic(25 * (y / 100), 4);
            assert(y == 100 * (y / 100));
            assert(y == 4 * (25 * (y / 100)));
        }
    }
}

/// Later years start on later days.
pub proof fn lemma_year_start_monotone(y1: int, y2: int)
    requires
        y1 < y2,
    ensures
        days_before_year(y1 + 1) <= days_before_year(y2),
    decreases y2 - y1,
{
    if y1 + 1 < y2 {
        lemma_year_start_monotone(y1 + 1, y2);
        lemma_year_length(y1 + 1);
    }
}

/// The day number orders dates as the calendar does.
pub proof fn lemma_epoch_day_order(a: Date, b: Date)
    requires
        a.wf(),
        b.wf(),
    ensures
        date_lt(a, b) ==> epoch_day(a) < epoch_day(b),
        a == b <==> epoch_day(a) == epoch_day(b),
        date_lt(a, b) || a == b || date_lt(b, a),
{
    lemma_epoch_day_lt(a, b);
    lemma_epoch_day_lt(b, a);
}

proof fn lemma_epoch_day_lt(a: Date, b: Date)
    requires
        a.wf(),
        b.wf(),
    ensures
        date_lt(a, b) ==> epoch_day(a) < epoch_day(b),
{
    let ya = a.year as int;
    let yb = b.year as int;
    if ya < yb {
        lemma_year_length(ya);
        lemma_year_start_monotone(ya, yb);
        assert(days_before_month(ya, a.month as int) + a.day <= if is_leap(ya) { 366int } else { 365int });
    } else if ya == yb && a.month < b.month {
        assert(days_before_month(ya, a.month as int) + days_in_month(ya, a.month as int)
            <= days_before_month(ya, b.month as int));
    }
}

/// Makes a date from its parts, if that day exists and is in range.
///
/// Calls `chrono::NaiveDate::from_ymd_opt`, which is documented to return `None`
/// exactly on an invalid month or day or a year outside the supported range.
#[verifier::external_body]
pub(crate) fn chrono_from_ymd(year: i32, month: u32, day: u32) -> (r: Option<Date>)
    ensures
        r is Some <==> valid_ymd(year as int, month as int, day as int),
        r matches Some(d) ==> d.year == year && d.month == month && d.day == day,
{
    match chrono::NaiveDate::from_ymd_opt(year, month, day) {
        Some(n) => Some(Date { year: n.year(), month: n.month(), day: n.day() }),
        None => None,
    }
}

/// Two decimal digits of `n` (0..=99).
pub open spec fn two_digits(n: int) -> Seq<char> {
    seq![digit_char(n / 10), digit_char(n % 10)]
}

/// The year as `%Y` writes it: four digits in 0..=9999, else a sign and at least four digits.
pub open spec fn year_text(y: int) -> Seq<char> {
    if 0 <= y <= 9999 {
        zero_pad(decimal(y as nat), 4)
    } else if y < 0 {
        seq!['-'] + zero_pad(decimal((-y) as nat), 4)
    } else {
        seq!['+'] + zero_pad(decimal(y as nat), 4)
    }
}

/// The ISO 8601 text of a date, `%Y-%m-%d`.
pub open spec fn date_text(d: Date) -> Seq<char> {
    year_text(d.year as int) + seq!['-'] + two_digits(d.month as int) + seq!['-'] + two_digits(
        d.day as int,
    )
}

/// What `chrono` makes of a text as a `%Y-%m-%d` date: (year, month, day), or the
/// text of its parse error.
pub uninterp spec fn chrono_parse_result(s: Seq<char>) -> Result<(i32, u32, u32), Seq<char>>;

/// The date a text parses to, as (year, month, day), if it parses.
pub open spec fn chrono_parsed_date(s: Seq<char>) -> Option<(i32, u32, u32)> {
    match chrono_parse_result(s) {
        Ok(t) => Some(t),
        Err(_) => None,
    }
}

/// The text of the error of a text that does not parse as a date.
pub open spec fn chrono_parse_error(s: Seq<char>) -> Seq<char> {
    match chrono_parse_result(s) {
        Ok(_) => Seq::empty(),
        Err(e) => e,
    }
}

/// The date `n` days after `d`, if it is in range.
///
/// Calls `chrono::NaiveDate::checked_add_days`, documented to add the days and to
/// return `None` when the result would be out of range.
#[verifier::external_body]
pub(crate) fn chrono_add_days(d: Date, n: u64) -> (r: Option<Date>)
    requires
        d.wf(),
    ensures
        r is Some <==> epoch_day(d) + n <= epoch_day(max_date()),
        r matches Some(x) ==> x.wf() && epoch_day(x) == epoch_day(d) + n,
{
    let nd = chrono::NaiveDate::from_ymd_opt(d.year, d.month, d.day).unwrap();
    match nd.checked_add_days(chrono::Days::new(n)) {
        Some(x) => Some(Date { year: x.year(), month: x.month(), day: x.day() }),
        None => None,
    }
}

/// The date `n` months after `d`, on the same day or on the last day of a shorter month.
///
/// Calls `chrono::NaiveDate::checked_add_months`, documented to use the last day of the
/// month when the day does not exist there, and to return `None` out of range.
#[verifier::external_body]
pub(crate) fn chrono_add_months(d: Date, n: u32) -> (r: Option<Date>)
    requires
        d.wf(),
    ensures
        r is Some <==> d.month_index() + n <= MAX_YEAR * 12 + 11,
        r matches Some(x) ==> {
            &&& x.wf()
            &&& x.month_index() == d.month_index() + n
            &&& x.day == if d.day <= days_in_month(x.year as int, x.month as int) {
                d.day as int
            } else {
                days_in_month(x.year as int, x.month as int)
            }
        },
{
    let nd = chrono::NaiveDate::from_ymd_opt(d.year, d.month, d.day).unwrap();
    match nd.checked_add_months(chrono::Months::new(n)) {
        Some(x) => Some(Date { year: x.year(), month: x.month(), day: x.day() }),
        None => None,
    }
}

/// The previous calendar day, if it is in range.
///
/// Calls `chrono::NaiveDate::pred_opt`, documented to give the previous date and
/// `None` only before the first supported date.
#[verifier::external_body]
pub(crate) fn chrono_pred(d: Date) -> (r: Option<Date>)
    requires
        d.wf(),
    ensures
        r is None <==> is_min_date(d),
        r matches Some(x) ==> if d.day > 1 {
            x == Date { year: d.year, month: d.month, day: (d.day - 1) as u32 }
        } else if d.month > 1 {
            x.year == d.year && x.month == d.month - 1 && x.day == days_in_month(
                d.year as int,
                d.month - 1,
            )
        } else {
            x.year == d.year - 1 && x.month == 12 && x.day == 31
        },
{
    let nd = chrono::NaiveDate::from_ymd_opt(d.year, d.month, d.day).unwrap();
    match nd.pred_opt() {
        Some(x) => Some(Date { year: x.year(), month: x.month(), day: x.day() }),
        None => None,
    }
}

/// The whole number of days from `b` to `a`.
///
/// Calls `chrono::NaiveDate::signed_duration_since` and `TimeDelta::num_days`:
/// the signed count of days between the two dates.
#[verifier::external_body]
pub(crate) fn chrono_days_since(a: Date, b: Date) -> (r: i64)
    requires
        a.wf(),
        b.wf(),
    ensures
        r == epoch_day(a) - epoch_day(b),
{
    let na = chrono::NaiveDate::from_ymd_opt(a.year, a.month, a.day).unwrap();
    let nb = chrono::NaiveDate::from_ymd_opt(b.year, b.month, b.day).unwrap();
    na.signed_duration_since(nb).num_days()
}

/// The `%Y-%m-%d` text of a date.
///
/// Calls `Display` of `chrono::NaiveDate`, which writes the year with four digits
/// in 0..=9999 and with a sign and at least four digits otherwise, then two-digit
/// month and day; its documentation says that the text parses back to the date.
#[verifier::external_body]
pub(crate) fn chrono_date_text(d: Date) -> (r: String)
    requires
        d.wf(),
    ensures
        r@ == date_text(d),
        chrono_parsed_date(r@) == Some((d.year, d.month, d.day)),
{
    chrono::NaiveDate::from_ymd_opt(d.year, d.month, d.day).unwrap().to_string()
}

/// Parses a `%Y-%m-%d` date.
///
/// Calls `str::parse::<chrono::NaiveDate>`; on failure the error's `Display` text is
/// returned. Both the date and the error text are named by `chrono_parse_result`,
/// which depends on the text alone; a parsed date is in range.
#[verifier::external_body]
pub(crate) fn chrono_parse(s: &str) -> (r: Result<Date, String>)
    ensures
        match r {
            Ok(d) => d.wf() && chrono_parse_result(s@) == Ok::<(i32, u32, u32), Seq<char>>((d.year, d.month, d.day)),
            Err(e) => chrono_parse_result(s@) == Err::<(i32, u32, u32), Seq<char>>(e@),
        },
{
    match s.parse::<chrono::NaiveDate>() {
        Ok(x) => Ok(Date { year: x.year(), month: x.month(), day: x.day() }),
        Err(e) => Err(e.to_string()),
    }
}

/// The earliest Unix time, in seconds, that `chrono::DateTime::from_timestamp` accepts:
/// the start of the first supported date.
pub const MIN_TIMESTAMP: i64 = -8334601228800;

/// The latest Unix time, in seconds, that `chrono::DateTime::from_timestamp` accepts:
/// the last second of the last supported date.
pub const MAX_TIMESTAMP: i64 = 8210266876799;

/// A Unix time at least a day inside the range of `chrono`'s dates, so that its local
/// date in any time zone (every zone's offset is less than a day) is in range too.
pub open spec fn zone_time_in_range(unix_seconds: int) -> bool {
    MIN_TIMESTAMP + 86400 <= unix_seconds <= MAX_TIMESTAMP - 86400
}

/// The calendar date, as (year, month, day), at a Unix time in the time zone named as
/// in the tz database, or in UTC where `chrono_tz` knows no zone of that name.
pub uninterp spec fn tz_date(tz_name: Seq<char>, unix_seconds: int) -> (i32, u32, u32);

/// Parses the zone name with `chrono_tz::Tz::from_str` (UTC where it fails), makes the
/// instant with `chrono::DateTime::from_timestamp` and takes its local date with
/// `with_timezone` and `date_naive`. `date_naive` panics where the zone's offset takes
/// the local time out of `chrono`'s range, so the time is kept a day inside it. The
/// date is named by `tz_date`: it depends on the name and the time alone, as the zone
/// data is compiled into `chrono_tz`.
#[verifier::external_body]
fn date_in_tz(tz_name: &str, unix_seconds: i64) -> (r: Date)
    requires
        zone_time_in_range(unix_seconds as int),
    ensures
        r.wf(),
        tz_date(tz_name@, unix_seconds as int) == (r.year, r.month, r.day),
{
    let tz: chrono_tz::Tz = tz_name.parse().unwrap_or(chrono_tz::UTC);
    let n = chrono::DateTime::from_timestamp(unix_seconds, 0).unwrap().with_timezone(&tz).date_naive();
    Date { year: n.year(), month: n.month(), day: n.day() }
}

/// The date at the Unix time `unix_seconds` in the configured time zone, the basis of
/// every date calculation; an unknown zone name counts as UTC.
pub fn today_in_tz(tz_name: &str, unix_seconds: i64) -> (r: Date)
    requires
        zone_time_in_range(unix_seconds as int),
    ensures
        r.wf(),
        tz_date(tz_name@, unix_seconds as int) == (r.year, r.month, r.day),
{
    date_in_tz(tz_name, unix_seconds)
}

} // verus!
