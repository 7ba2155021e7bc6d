use home_maintenance::domain::recurrence::parse_date;
use home_maintenance::error::AppError;
use home_maintenance::repo::assets::{merge_asset_update, merge_opt, Asset, AssetInput};
use home_maintenance::repo::log::{check_delete_confirmed, log_entries_query};
use home_maintenance::repo::reminders::{
    compute_next_due, next_due_fits, reminders_sql, reminders_with_tasks_sql, TaskForReminder,
};
use home_maintenance::repo::tasks::{
    compute_initial_due_date, initial_due_fits, merge_task_update, task_input_from_task, Task,
    TaskInput,
};

fn asset() -> Asset {
    Asset {
        id: "a1".to_string(),
        created_at: "c".to_string(),
        updated_at: "u".to_string(),
        name: "Water Heater".to_string(),
        location_id: Some("loc".to_string()),
        category: "appliance".to_string(),
        make: Some("Rheem".to_string()),
        model: Some("X100".to_string()),
        serial: None,
        install_date: Some("2020-01-01".to_string()),
        warranty_end: None,
        notes: Some("n".to_string()),
        archived: 0,
    }
}

fn task() -> Task {
    Task {
        id: "t1".to_string(),
        created_at: "c".to_string(),
        updated_at: "u".to_string(),
        asset_id: Some("a1".to_string()),
        name: "Drain".to_string(),
        description: None,
        schedule_mode: "floating".to_string(),
        interval_value: Some(1),
        interval_unit: Some("month".to_string()),
        season_anchor: None,
        fixed_interval_years: None,
        estimated_minutes: Some(30),
        active: 1,
    }
}

#[test]
fn merge_opt_keeps_on_empty() {
    assert_eq!(merge_opt(Some("".to_string()), Some("old".to_string())), Some("old".to_string()));
    assert_eq!(merge_opt(Some("new".to_string()), Some("old".to_string())), Some("new".to_string()));
    assert_eq!(merge_opt(None, Some("old".to_string())), Some("old".to_string()));
}

#[test]
fn asset_update_merges() {
    let input = AssetInput {
        name: "Updated Heater".to_string(),
        location_id: Some("".to_string()),
        make: Some("".to_string()),
        serial: Some("S1".to_string()),
        ..AssetInput::default()
    };
    let m = merge_asset_update(asset(), input);
    assert_eq!(m.name, "Updated Heater");
    assert_eq!(m.category, "appliance");
    assert_eq!(m.location_id, Some("".to_string()));
    assert_eq!(m.make, Some("Rheem".to_string()));
    assert_eq!(m.serial, Some("S1".to_string()));
    assert_eq!(m.notes, Some("n".to_string()));
    let same = merge_asset_update(asset(), AssetInput::default());
    assert_eq!(same.name, "Water Heater");
    assert_eq!(same.location_id, Some("loc".to_string()));
}

#[test]
fn task_update_detects_schedule_change() {
    let u = merge_task_update(&task(), TaskInput::default());
    assert!(!u.schedule_changed);
    assert_eq!(u.merged.name, "Drain");
    let u = merge_task_update(&task(), TaskInput { interval_value: Some(2), ..TaskInput::default() });
    assert!(u.schedule_changed);
    let u = merge_task_update(&task(), TaskInput { name: "New".to_string(), ..TaskInput::default() });
    assert!(!u.schedule_changed);
    assert_eq!(u.merged.name, "New");
    let u = merge_task_update(
        &task(),
        TaskInput { interval_unit: Some("month".to_string()), ..TaskInput::default() },
    );
    assert!(!u.schedule_changed);
    let i = task_input_from_task(task());
    assert_eq!(i.schedule_mode, "floating");
}

#[test]
fn next_due_after_completion() {
    let completed = parse_date("2025-01-15").unwrap();
    let t = TaskForReminder {
        schedule_mode: "floating".to_string(),
        interval_value: Some(1),
        interval_unit: Some("month".to_string()),
        season_anchor: None,
        fixed_interval_years: None,
    };
    assert!(next_due_fits(&t, completed));
    assert_eq!(compute_next_due(&t, completed).unwrap(), parse_date("2025-02-15").unwrap());
    let f = TaskForReminder {
        schedule_mode: "fixed".to_string(),
        interval_value: None,
        interval_unit: None,
        season_anchor: Some("10-15".to_string()),
        fixed_interval_years: Some(2),
    };
    assert_eq!(compute_next_due(&f, completed).unwrap(), parse_date("2025-10-15").unwrap());
    let missing = TaskForReminder { season_anchor: None, ..f.clone() };
    assert_eq!(
        compute_next_due(&missing, completed),
        Err(AppError::Internal("missing season_anchor".to_string()))
    );
    let bad = TaskForReminder { season_anchor: Some("99-99".to_string()), ..f };
    assert_eq!(
        compute_next_due(&bad, completed),
        Err(AppError::Internal("invalid anchor: 99-99".to_string()))
    );
    let odd = TaskForReminder { schedule_mode: "odd".to_string(), ..t };
    assert_eq!(
        compute_next_due(&odd, completed),
        Err(AppError::Internal("unknown schedule mode: odd".to_string()))
    );
}

#[test]
fn initial_due_from_input() {
    let today = parse_date("2025-01-01").unwrap();
    let input = TaskInput {
        name: "Quarterly filter change".to_string(),
        schedule_mode: "floating".to_string(),
        interval_value: Some(3),
        interval_unit: Some("month".to_string()),
        ..TaskInput::default()
    };
    assert!(initial_due_fits(&input, today, None));
    assert_eq!(compute_initial_due_date(&input, today, None).unwrap(), parse_date("2025-04-01").unwrap());
    let bad = TaskInput { interval_unit: Some("decade".to_string()), ..input };
    assert_eq!(
        compute_initial_due_date(&bad, today, None),
        Err(AppError::BadRequest("invalid date: unknown unit: decade".to_string()))
    );
}

#[test]
fn log_query_numbering() {
    let q = log_entries_query(Some("a1"), None, Some("HVAC"), None, Some("2025-02-01"), Some("filter"));
    assert!(q.sql.contains(" AND le.asset_id = $1"));
    assert!(q.sql.contains(" AND tg.name = $2"));
    assert!(q.sql.contains(" AND le.completed_date <= $3"));
    assert!(q.sql.contains(
        " AND (le.notes LIKE $4 OR le.vendor LIKE $5 OR le.performed_by LIKE $6)"
    ));
    assert!(q.sql.ends_with(" ORDER BY le.completed_date DESC"));
    assert_eq!(q.binds, vec!["a1", "HVAC", "2025-02-01", "%filter%", "%filter%", "%filter%"]);
    let q = log_entries_query(None, None, None, None, None, None);
    assert!(q.sql.ends_with("WHERE 1 = 1 ORDER BY le.completed_date DESC"));
    assert!(q.binds.is_empty());
    assert_eq!(
        check_delete_confirmed(false),
        Err(AppError::BadRequest("confirm=true required".to_string()))
    );
    assert_eq!(check_delete_confirmed(true), Ok(()));
}

#[test]
fn reminder_queries() {
    let s = reminders_sql(true, true, true);
    assert!(s.contains(" AND t.asset_id = $1"));
    assert!(s.contains(") = $2 ORDER BY r.due_date LIMIT $3"));
    let s = reminders_sql(false, false, true);
    assert!(s.ends_with("WHERE t.active = 1 ORDER BY r.due_date LIMIT $1"));
    assert!(reminders_with_tasks_sql(true).ends_with("ORDER BY r.due_date LIMIT $1"));
    assert!(reminders_with_tasks_sql(false).ends_with("ORDER BY r.due_date"));
}
