use home_maintenance::domain::recurrence::{
    derive_status, initial_due_date, next_due_fixed, next_due_floating, parse_date, ReminderStatus,
};

#[test]
fn test_floating_on_time() {
    let today = parse_date("2024-01-01").unwrap();
    let completed = parse_date("2024-06-15").unwrap();
    let next = next_due_floating(completed, 6, "month").unwrap();
    assert_eq!(next, parse_date("2024-12-15").unwrap());
    assert_eq!(derive_status(today, next, None), ReminderStatus::Upcoming);
}

#[test]
fn test_floating_late_completion_shifts_schedule() {
    let today = parse_date("2024-01-01").unwrap();
    let completed = parse_date("2024-08-15").unwrap();
    let next = next_due_floating(completed, 6, "month").unwrap();
    assert_eq!(next, parse_date("2025-02-15").unwrap());
    assert_eq!(derive_status(today, next, None), ReminderStatus::Upcoming);
}

#[test]
fn test_fixed_early_completion_no_shift() {
    // Pool closing Oct 1 against an Oct 15 anchor.
    let today = parse_date("2024-10-01").unwrap();
    let next = next_due_fixed(today, "10-15", 1).unwrap();
    assert_eq!(next, parse_date("2024-10-15").unwrap());
    // Due date is 14 days out, so status is upcoming per the 7-day rule.
    assert_eq!(derive_status(today, next, None), ReminderStatus::Upcoming);
}

#[test]
fn test_fixed_on_anchor_goes_next_year() {
    let today = parse_date("2024-10-15").unwrap();
    let next = next_due_fixed(today, "10-15", 1).unwrap();
    assert_eq!(next, parse_date("2025-10-15").unwrap());
}

#[test]
fn test_fixed_past_anchor_next_year() {
    let today = parse_date("2024-10-16").unwrap();
    let next = next_due_fixed(today, "10-15", 1).unwrap();
    assert_eq!(next, parse_date("2025-10-15").unwrap());
}

#[test]
fn test_month_end_clamping() {
    let d = parse_date("2024-01-31").unwrap();
    let next = next_due_floating(d, 1, "month").unwrap();
    assert_eq!(next, parse_date("2024-02-29").unwrap());
}

#[test]
fn test_leap_day_anchor_non_leap_year() {
    let today = parse_date("2023-01-01").unwrap();
    let next = next_due_fixed(today, "02-29", 1).unwrap();
    assert_eq!(next, parse_date("2023-02-28").unwrap());
}

#[test]
fn test_leap_day_anchor_leap_year() {
    let today = parse_date("2024-01-01").unwrap();
    let next = next_due_fixed(today, "02-29", 1).unwrap();
    assert_eq!(next, parse_date("2024-02-29").unwrap());
}

#[test]
fn test_fixed_every_two_years() {
    let today = parse_date("2024-03-01").unwrap();
    let next = next_due_fixed(today, "03-15", 2).unwrap();
    assert_eq!(next, parse_date("2024-03-15").unwrap());
}

#[test]
fn test_fixed_every_two_years_after_anchor() {
    let today = parse_date("2024-03-16").unwrap();
    let next = next_due_fixed(today, "03-15", 2).unwrap();
    assert_eq!(next, parse_date("2026-03-15").unwrap());
}

#[test]
fn test_snooze_delays_status() {
    let today = parse_date("2024-08-01").unwrap();
    let due = parse_date("2024-07-30").unwrap();
    assert_eq!(derive_status(today, due, None), ReminderStatus::Overdue);
    assert_eq!(
        derive_status(today, due, Some(parse_date("2024-08-05").unwrap())),
        ReminderStatus::Upcoming
    );
}

#[test]
fn test_due_within_seven_days() {
    let today = parse_date("2024-08-01").unwrap();
    let due = parse_date("2024-08-07").unwrap();
    assert_eq!(derive_status(today, due, None), ReminderStatus::Due);
}

#[test]
fn test_overdue_boundary() {
    let today = parse_date("2024-08-01").unwrap();
    let due = parse_date("2024-07-31").unwrap();
    assert_eq!(derive_status(today, due, None), ReminderStatus::Overdue);
}

#[test]
fn test_initial_due_floating_without_last_done() {
    let today = parse_date("2024-08-01").unwrap();
    let due = initial_due_date(today, None, "floating", Some(3), Some("month"), None, 1).unwrap();
    assert_eq!(due, parse_date("2024-11-01").unwrap());
}

#[test]
fn test_initial_due_fixed_without_last_done() {
    let today = parse_date("2024-08-01").unwrap();
    let due = initial_due_date(today, None, "fixed", None, None, Some("10-15"), 1).unwrap();
    assert_eq!(due, parse_date("2024-10-15").unwrap());
}

#[test]
fn test_initial_due_fixed_with_last_done_this_year() {
    let last_done = parse_date("2024-05-01").unwrap();
    let due = initial_due_date(last_done, Some(last_done), "fixed", None, None, Some("10-15"), 1)
        .unwrap();
    assert_eq!(due, parse_date("2024-10-15").unwrap());
}
