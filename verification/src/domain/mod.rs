//! Scheduling rules: recurrence of tasks and their schedules.
pub mod recurrence;
pub mod schedule;
