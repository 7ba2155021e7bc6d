use home_maintenance::calendar::{today_in_tz, Date, MAX_TIMESTAMP, MIN_TIMESTAMP};
use home_maintenance::domain::recurrence::{
    derive_status, initial_due_date, is_leap_year, next_due_fixed, next_due_fixed_fits,
    next_due_floating, parse_anchor as recurrence_parse_anchor, parse_date, resolve_anchor_day,
    RecurrenceError, ReminderStatus,
};
use home_maintenance::domain::schedule::{
    describe_schedule, parse_anchor, IntervalUnit, Schedule, ScheduleError, ScheduleMode,
};

fn d(s: &str) -> Date {
    parse_date(s).unwrap()
}

#[test]
fn floating_days_and_weeks() {
    assert_eq!(next_due_floating(d("2024-02-27"), 3, "day").unwrap(), d("2024-03-01"));
    assert_eq!(next_due_floating(d("2024-12-30"), 2, "week").unwrap(), d("2025-01-13"));
    assert_eq!(next_due_floating(d("2024-05-05"), 0, "day").unwrap(), d("2024-05-05"));
}

#[test]
fn floating_years_and_leap_day() {
    assert_eq!(next_due_floating(d("2024-02-29"), 1, "year").unwrap(), d("2025-02-28"));
    assert_eq!(next_due_floating(d("2024-02-29"), 4, "year").unwrap(), d("2028-02-29"));
    assert_eq!(next_due_floating(d("2023-01-31"), 1, "month").unwrap(), d("2023-02-28"));
    assert_eq!(next_due_floating(d("2024-03-31"), 1, "month").unwrap(), d("2024-04-30"));
}

#[test]
fn floating_unknown_unit_and_overflow() {
    assert_eq!(
        next_due_floating(d("2024-01-01"), 1, "fortnight"),
        Err(RecurrenceError::InvalidDate("unknown unit: fortnight".to_string()))
    );
    assert_eq!(
        next_due_floating(d("2024-01-01"), u32::MAX, "day"),
        Err(RecurrenceError::InvalidDate("overflow".to_string()))
    );
    assert_eq!(
        next_due_floating(d("2024-01-01"), u32::MAX, "year"),
        Err(RecurrenceError::InvalidDate("overflow".to_string()))
    );
}

#[test]
fn fixed_invalid_anchors() {
    for a in ["13-01", "00-10", "10-32", "1015", "10-15-1", "a-b", ""] {
        assert_eq!(
            next_due_fixed(d("2024-01-01"), a, 1),
            Err(RecurrenceError::InvalidAnchor(a.to_string())),
            "{a}"
        );
    }
    // Parses, but April has no 31st.
    assert_eq!(
        next_due_fixed(d("2024-01-01"), "04-31", 1),
        Err(RecurrenceError::InvalidAnchor("04-31".to_string()))
    );
}

#[test]
fn fixed_zero_years_counts_as_one_and_anchor_day_itself() {
    assert_eq!(next_due_fixed(d("2024-10-15"), "10-15", 0).unwrap(), d("2025-10-15"));
    assert_eq!(next_due_fixed(d("2024-10-15"), "10-15", 3).unwrap(), d("2027-10-15"));
    assert_eq!(next_due_fixed(d("2024-12-31"), "+1-1", 1).unwrap(), d("2025-01-01"));
}

#[test]
fn fixed_negative_cadence_fails_within_range() {
    // `u32::MAX` years wrap to a step of minus one year; the search runs out of range.
    assert!(next_due_fixed_fits(d("2024-10-16"), "10-15", u32::MAX));
    assert_eq!(
        next_due_fixed(d("2024-10-16"), "10-15", u32::MAX),
        Err(RecurrenceError::InvalidAnchor("10-15".to_string()))
    );
    // A step that overflows the year is refused by the check.
    assert!(!next_due_fixed_fits(d("2024-10-16"), "10-15", i32::MAX as u32));
    assert!(next_due_fixed_fits(d("2024-10-01"), "10-15", i32::MAX as u32));
}

#[test]
fn status_boundaries() {
    let today = d("2024-08-01");
    assert_eq!(derive_status(today, today, None), ReminderStatus::Due);
    assert_eq!(derive_status(today, d("2024-08-08"), None), ReminderStatus::Due);
    assert_eq!(derive_status(today, d("2024-08-09"), None), ReminderStatus::Upcoming);
    assert_eq!(derive_status(today, d("2024-07-30"), Some(today)), ReminderStatus::Upcoming);
    assert_eq!(derive_status(today, d("2024-07-30"), Some(d("2024-07-31"))), ReminderStatus::Overdue);
    assert_eq!(derive_status(d("2025-01-01"), d("2024-12-31"), None), ReminderStatus::Overdue);
    assert_eq!(ReminderStatus::Overdue.as_str(), "overdue");
    assert_eq!(ReminderStatus::Due.as_str(), "due");
    assert_eq!(ReminderStatus::Upcoming.as_str(), "upcoming");
}

#[test]
fn initial_due_errors_and_last_done() {
    let today = d("2024-08-01");
    assert_eq!(
        initial_due_date(today, None, "weekly", None, None, None, 1),
        Err(RecurrenceError::InvalidDate("unknown schedule mode: weekly".to_string()))
    );
    assert_eq!(
        initial_due_date(today, None, "fixed", None, None, None, 1),
        Err(RecurrenceError::InvalidAnchor("missing season_anchor".to_string()))
    );
    assert_eq!(
        initial_due_date(today, Some(d("2024-07-20")), "floating", Some(2), Some("week"), None, 1)
            .unwrap(),
        d("2024-08-03")
    );
    assert_eq!(initial_due_date(today, None, "floating", None, None, None, 1).unwrap(), d("2024-09-01"));
}

#[test]
fn date_text_and_parse() {
    assert_eq!(d("2024-03-05").to_iso_string(), "2024-03-05");
    assert_eq!(d("+10000-1-1").to_iso_string(), "+10000-01-01");
    assert_eq!(d("-0001-12-31").to_iso_string(), "-0001-12-31");
    assert_eq!(d("0000-01-01").to_iso_string(), "0000-01-01");
    for s in ["2024-03-05", "+10000-01-01", "-0001-12-31", "0999-02-28"] {
        assert_eq!(parse_date(s).unwrap().to_iso_string(), s);
    }
    assert_eq!(
        parse_date("2024-13-01"),
        Err(RecurrenceError::InvalidDate("2024-13-01: input is out of range".to_string()))
    );
    assert_eq!(
        parse_date(""),
        Err(RecurrenceError::InvalidDate(": premature end of input".to_string()))
    );
    assert_eq!(
        RecurrenceError::InvalidAnchor("x".to_string()).message(),
        "invalid anchor: x"
    );
}

#[test]
fn leap_years_and_anchor_days() {
    assert!(is_leap_year(2024));
    assert!(!is_leap_year(2023));
    assert!(!is_leap_year(1900));
    assert!(is_leap_year(2000));
    assert!(is_leap_year(-4));
    assert_eq!(resolve_anchor_day(2023, 2, 29), 28);
    assert_eq!(resolve_anchor_day(2024, 2, 29), 29);
    assert_eq!(resolve_anchor_day(2023, 3, 29), 29);
}

#[test]
fn anchors_parse_like_str_parse() {
    assert_eq!(parse_anchor("10-15").unwrap(), (10, 15));
    assert_eq!(parse_anchor("+3-015").unwrap(), (3, 15));
    assert_eq!(recurrence_parse_anchor("02-29").unwrap(), (2, 29));
    assert!(matches!(parse_anchor(" 10-15"), Err(ScheduleError::InvalidAnchor(a)) if a == " 10-15"));
    assert!(parse_anchor("10-").is_err());
    assert!(parse_anchor("12-31").is_ok());
    assert_eq!(parse_anchor("02-29").unwrap(), (2, 29));
    assert!(matches!(parse_anchor("02-30"), Err(ScheduleError::InvalidAnchor(a)) if a == "02-30"));
    assert!(matches!(parse_anchor("04-31"), Err(ScheduleError::InvalidAnchor(a)) if a == "04-31"));
    assert_eq!(parse_anchor("04-30").unwrap(), (4, 30));
    assert_eq!(
        ScheduleError::InvalidAnchor("x".to_string()).message(),
        "invalid season anchor: x"
    );
}

#[test]
fn schedule_descriptions() {
    assert_eq!(
        describe_schedule("floating", Some(1), Some("day"), None, None),
        "every 1 day after completion"
    );
    assert_eq!(
        describe_schedule("floating", Some(3), Some("month"), None, None),
        "every 3 months after completion"
    );
    assert_eq!(describe_schedule("floating", None, None, None, None), "every 1 month after completion");
    assert_eq!(describe_schedule("fixed", None, None, Some("10-15"), None), "every year on 10-15");
    assert_eq!(describe_schedule("fixed", None, None, Some("03-15"), Some(2)), "every 2 years on 03-15");
    assert_eq!(describe_schedule("fixed", None, None, None, Some(1)), "every year on ?");
    assert_eq!(describe_schedule("other", None, None, None, None), "unknown schedule");
    // The interval is read as a `u32`, truncating larger values.
    assert_eq!(
        describe_schedule("floating", Some(4294967297), Some("day"), None, None),
        "every 1 day after completion"
    );
}

#[test]
fn schedule_modes() {
    let f = Schedule::Floating { interval_value: 2, interval_unit: IntervalUnit::Week };
    let x = Schedule::Fixed { season_anchor: "10-15".to_string(), fixed_interval_years: 1 };
    assert_eq!(f.mode(), ScheduleMode::Floating);
    assert_eq!(x.mode(), ScheduleMode::Fixed);
    assert_eq!(f.to_db_mode(), "floating");
    assert_eq!(x.to_db_mode(), "fixed");
    assert_eq!(IntervalUnit::Year.as_str(), "year");
    assert_eq!(IntervalUnit::Day.as_str(), "day");
}

#[test]
fn month_end_clamping_at_the_last_supported_year() {
    let nov30 = Date { year: 262142, month: 11, day: 30 };
    assert_eq!(
        next_due_floating(nov30, 1, "month").unwrap(),
        Date { year: 262142, month: 12, day: 30 }
    );
    let oct31 = Date { year: 262142, month: 10, day: 31 };
    assert_eq!(
        next_due_floating(oct31, 2, "month").unwrap(),
        Date { year: 262142, month: 12, day: 31 }
    );
    assert_eq!(
        next_due_floating(oct31, 1, "month").unwrap(),
        Date { year: 262142, month: 11, day: 30 }
    );
}

#[test]
fn dates_in_time_zones() {
    // 2024-03-10T03:30:00Z
    let t: i64 = 1_710_041_400;
    assert_eq!(today_in_tz("UTC", t), Date { year: 2024, month: 3, day: 10 });
    assert_eq!(today_in_tz("America/New_York", t), Date { year: 2024, month: 3, day: 9 });
    assert_eq!(today_in_tz("Asia/Tokyo", t), Date { year: 2024, month: 3, day: 10 });
    assert_eq!(today_in_tz("Not/AZone", t), Date { year: 2024, month: 3, day: 10 });
    // a day inside both ends of the range, in zones far east and west
    let last = MAX_TIMESTAMP - 86400;
    assert_eq!(today_in_tz("Asia/Tokyo", last), Date { year: 262142, month: 12, day: 31 });
    let first = MIN_TIMESTAMP + 86400;
    assert_eq!(today_in_tz("America/New_York", first), Date { year: -262143, month: 1, day: 1 });
}

#[test]
fn initial_due_counts_from_last_completion() {
    let done = d("2024-07-20");
    for today in [d("2024-01-01"), d("2024-08-01"), d("2030-12-31")] {
        assert_eq!(
            initial_due_date(today, Some(done), "floating", Some(3), Some("month"), None, 1).unwrap(),
            d("2024-10-20")
        );
        assert_eq!(
            initial_due_date(today, Some(done), "fixed", None, None, Some("10-15"), 1).unwrap(),
            d("2024-10-15")
        );
    }
    assert_eq!(
        initial_due_date(d("2024-08-01"), None, "floating", None, None, None, 1).unwrap(),
        next_due_floating(d("2024-08-01"), 1, "month").unwrap()
    );
}

#[test]
fn timestamp_bounds_are_chronos() {
    assert!(chrono::DateTime::from_timestamp(MIN_TIMESTAMP, 0).is_some());
    assert!(chrono::DateTime::from_timestamp(MIN_TIMESTAMP - 1, 0).is_none());
    assert!(chrono::DateTime::from_timestamp(MAX_TIMESTAMP, 0).is_some());
    assert!(chrono::DateTime::from_timestamp(MAX_TIMESTAMP + 1, 0).is_none());
}
