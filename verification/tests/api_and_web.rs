use home_maintenance::api::attachments::{
    attachment_input, owner_dir, sanitize_filename, sanitize_name, stored_filename, upload_names,
    UploadedFile,
};
use home_maintenance::api::auth::api_request_allowed;
use home_maintenance::web::session::sign_session;
use home_maintenance::api::reminders::{summarize_reminders, ReminderJson};
use home_maintenance::api::tasks::{
    completed_date_or_today, optional_date, snooze_until_date, status_from_texts,
    task_input_from_payload, update_input_from_payload, validate_task_payload, CreateTaskPayload,
    SnoozePayload, UpdateTaskPayload,
};
use home_maintenance::config::AuthMode;
use home_maintenance::domain::recurrence::{parse_date, ReminderStatus};
use home_maintenance::error::AppError;
use home_maintenance::repo::assets::Asset;
use home_maintenance::repo::reminders::{Reminder, ReminderWithTask};
use home_maintenance::repo::supplies::Supply;
use home_maintenance::repo::tasks::Task;
use home_maintenance::web::access::{check_password, login_page_allowed, ui_request_allowed};
use home_maintenance::web::assets::{
    asset_categories, default_categories, filter_assets, show_archived, AssetListQuery,
};
use home_maintenance::web::dashboard::dashboard_groups;
use home_maintenance::web::supplies::build_supply_rows;
use home_maintenance::web::tasks::build_task_rows;

fn row(id: &str, due: &str, snoozed: Option<&str>) -> ReminderWithTask {
    ReminderWithTask {
        id: id.to_string(),
        task_id: format!("t-{id}"),
        task_name: format!("task {id}"),
        asset_id: None,
        asset_name: None,
        due_date: due.to_string(),
        snoozed_until: snoozed.map(|s| s.to_string()),
    }
}

#[test]
fn auth_decisions() {
    let k: Vec<u8> = (0u8..64).collect();
    let k = k.as_slice();
    assert!(api_request_allowed(None, None, None, AuthMode::Disabled, k));
    assert!(api_request_allowed(Some("session=forged"), None, None, AuthMode::Disabled, k));
    assert!(!api_request_allowed(None, None, None, AuthMode::Password, k));
    assert!(api_request_allowed(None, Some("Bearer tok"), Some("tok"), AuthMode::Password, k));
    assert!(!api_request_allowed(None, Some("Bearer nope"), Some("tok"), AuthMode::Password, k));
    assert!(!api_request_allowed(None, Some("Bearer "), None, AuthMode::Password, k));
    assert!(!api_request_allowed(Some("session=forged"), None, None, AuthMode::Password, k));
    let signed = sign_session("authenticated", k);
    let header = format!("theme=dark; session={signed}");
    assert!(api_request_allowed(Some(&header), None, None, AuthMode::Password, k));
    let other: Vec<u8> = (1u8..65).collect();
    assert!(!api_request_allowed(Some(&header), None, None, AuthMode::Password, &other));
    let someone = format!("session={}", sign_session("someone", k));
    assert!(!api_request_allowed(Some(&someone), None, None, AuthMode::Password, k));
    assert!(ui_request_allowed("/login", None));
    assert!(ui_request_allowed("/static/app.css", None));
    assert!(!ui_request_allowed("/assets", None));
    assert!(!ui_request_allowed("/assets", Some("nope")));
    assert!(ui_request_allowed("/assets", Some("authenticated")));
    assert_eq!(check_password(&Some("pw".to_string()), "pw"), Ok(()));
    assert_eq!(check_password(&Some("pw".to_string()), "x"), Err(AppError::Unauthorized));
    assert_eq!(check_password(&None, "pw"), Err(AppError::Unauthorized));
    assert_eq!(
        login_page_allowed(AuthMode::Disabled),
        Err(AppError::BadRequest("auth is disabled".to_string()))
    );
    assert_eq!(login_page_allowed(AuthMode::Password), Ok(()));
}

#[test]
fn task_payloads() {
    let p = CreateTaskPayload {
        name: "Drain".to_string(),
        schedule_mode: "floating".to_string(),
        interval_value: Some(1),
        ..CreateTaskPayload::default()
    };
    assert_eq!(
        validate_task_payload(&p),
        Err(AppError::BadRequest(
            "floating schedule requires interval_value and interval_unit".to_string()
        ))
    );
    let p = CreateTaskPayload { interval_unit: Some("month".to_string()), ..p };
    assert_eq!(validate_task_payload(&p), Ok(()));
    let f = CreateTaskPayload { schedule_mode: "fixed".to_string(), ..CreateTaskPayload::default() };
    assert_eq!(
        validate_task_payload(&f),
        Err(AppError::BadRequest("fixed schedule requires season_anchor".to_string()))
    );
    let x = CreateTaskPayload { schedule_mode: "x".to_string(), ..CreateTaskPayload::default() };
    assert_eq!(
        validate_task_payload(&x),
        Err(AppError::BadRequest("invalid schedule_mode: x".to_string()))
    );
    assert_eq!(task_input_from_payload(&p).interval_unit, Some("month".to_string()));
    let u = update_input_from_payload(UpdateTaskPayload {
        interval_value: Some(4),
        ..UpdateTaskPayload::default()
    });
    assert_eq!(u.name, "");
    assert_eq!(u.schedule_mode, "");
    assert_eq!(u.interval_value, Some(4));
}

#[test]
fn dates_of_requests() {
    let today = parse_date("2024-08-01").unwrap();
    assert_eq!(optional_date(&Some("2024-05-01".to_string())), Some(parse_date("2024-05-01").unwrap()));
    assert_eq!(optional_date(&Some("garbage".to_string())), None);
    assert_eq!(completed_date_or_today(&None, today), today);
    assert_eq!(completed_date_or_today(&Some("x".to_string()), today), today);
    let s = snooze_until_date(&SnoozePayload { days: None, until: None }, today).unwrap();
    assert_eq!(s.to_iso_string(), "2024-08-08");
    let s = snooze_until_date(&SnoozePayload { days: Some(-5), until: None }, today).unwrap();
    assert_eq!(s.to_iso_string(), "2024-08-02");
    let s = snooze_until_date(&SnoozePayload { days: Some(3), until: Some("2024-09-01".to_string()) }, today)
        .unwrap();
    assert_eq!(s.to_iso_string(), "2024-09-01");
    assert_eq!(
        snooze_until_date(&SnoozePayload { days: None, until: Some("soon".to_string()) }, today),
        Err(AppError::BadRequest("invalid until date: input contains invalid characters".to_string()))
    );
    assert_eq!(
        snooze_until_date(&SnoozePayload { days: Some(i64::MAX), until: None }, today),
        Err(AppError::BadRequest("invalid snooze duration".to_string()))
    );
    assert_eq!(status_from_texts(today, "not a date", &None), ReminderStatus::Due);
    assert_eq!(status_from_texts(today, "2024-07-01", &Some("2024-08-02".to_string())), ReminderStatus::Upcoming);
}

#[test]
fn reminder_summary_counts() {
    let today = parse_date("2024-08-01").unwrap();
    let rows = vec![
        row("1", "2024-07-01", None),
        row("2", "2024-08-03", None),
        row("3", "2024-12-01", None),
        row("4", "2024-07-01", Some("2024-08-10")),
    ];
    let s = summarize_reminders(today, rows);
    assert_eq!((s.overdue_count, s.due_count, s.upcoming_count), (1, 1, 2));
    let statuses: Vec<&str> = s.reminders.iter().map(|r: &ReminderJson| r.status.as_str()).collect();
    assert_eq!(statuses, vec!["overdue", "due", "upcoming", "upcoming"]);
    assert_eq!(s.reminders[1].task_id, "t-2");
}

#[test]
fn dashboard_grouping_and_cutoff() {
    let today = parse_date("2024-08-01").unwrap();
    let rows = vec![
        row("1", "2024-07-01", None),
        row("2", "2024-08-03", None),
        row("3", "2024-08-31", None),
        row("4", "2024-09-01", None),
        row("5", "2024-07-01", Some("2024-08-10")),
    ];
    let g = dashboard_groups(today, rows);
    assert_eq!(g.overdue.len(), 1);
    assert_eq!(g.due.len(), 1);
    let ids: Vec<&str> = g.upcoming.iter().map(|v| v.id.as_str()).collect();
    assert_eq!(ids, vec!["3", "5"]);
    assert_eq!((g.counts.overdue, g.counts.due, g.counts.upcoming), (1, 1, 2));
    assert_eq!(g.upcoming[1].status, "upcoming");
}

#[test]
fn attachment_names() {
    assert_eq!(sanitize_filename("../etc/pass wd.txt"), "pass_wd.txt");
    assert_eq!(sanitize_filename("résumé 2024.pdf"), "résumé_2024.pdf");
    assert_eq!(sanitize_filename(".."), "upload");
    assert_eq!(sanitize_filename(""), "upload");
    assert_eq!(sanitize_filename("dir/file.txt/"), "file.txt");
    assert_eq!(sanitize_filename("a/./"), "a");
    assert_eq!(sanitize_filename("a//b"), "b");
    assert_eq!(sanitize_filename("./x y"), "x_y");
    assert_eq!(sanitize_filename("a/.."), "upload");
    assert_eq!(sanitize_filename("."), "upload");
    assert_eq!(sanitize_filename("/"), "upload");
    assert_eq!(sanitize_filename("a b/c:d"), "c_d");
    assert_eq!(sanitize_name("a/b?c"), "a_b_c");
    assert_eq!(stored_filename("id1", "x.txt"), "id1_x.txt");
    assert_eq!(owner_dir(&None), "unknown");
    assert_eq!(owner_dir(&Some("asset".to_string())), "asset");
    assert_eq!(
        upload_names(None, None),
        ("upload".to_string(), "application/octet-stream".to_string())
    );
    let f = UploadedFile {
        id: "id1".to_string(),
        original_filename: "x.txt".to_string(),
        content_type: "text/plain".to_string(),
        byte_size: 3,
        path: "/tmp/x".to_string(),
    };
    assert_eq!(
        attachment_input(None, Some("o".to_string()), Some(f.clone())).unwrap_err(),
        AppError::BadRequest("owner_type required".to_string())
    );
    assert_eq!(
        attachment_input(Some("asset".to_string()), None, Some(f.clone())).unwrap_err(),
        AppError::BadRequest("owner_id required".to_string())
    );
    assert_eq!(
        attachment_input(Some("asset".to_string()), Some("a1".to_string()), None).unwrap_err(),
        AppError::BadRequest("file required".to_string())
    );
    let (file, input) =
        attachment_input(Some("asset".to_string()), Some("a1".to_string()), Some(f)).unwrap();
    assert_eq!(file.id, "id1");
    assert_eq!((input.filename.as_str(), input.byte_size, input.caption), ("x.txt", 3, None));
}

fn asset(id: &str, name: &str, category: &str, archived: i64) -> Asset {
    Asset {
        id: id.to_string(),
        created_at: String::new(),
        updated_at: String::new(),
        name: name.to_string(),
        location_id: None,
        category: category.to_string(),
        make: None,
        model: None,
        serial: None,
        install_date: None,
        warranty_end: None,
        notes: None,
        archived,
    }
}

#[test]
fn asset_list_filters_and_categories() {
    let all = vec![
        asset("1", "Heater", "plumbing", 0),
        asset("2", "Old AC", "hvac", 1),
        asset("3", "Furnace", "hvac", 0),
        asset("4", "Sink", "plumbing", 0),
    ];
    assert_eq!(filter_assets(&all, None, false).len(), 3);
    assert_eq!(filter_assets(&all, None, true).len(), 4);
    let hvac = filter_assets(&all, Some("hvac"), false);
    assert_eq!(hvac.len(), 1);
    assert_eq!(hvac[0].id, "3");
    assert_eq!(asset_categories(&all), vec!["hvac".to_string(), "plumbing".to_string()]);
    assert!(show_archived(&AssetListQuery { category: None, archived: Some("1".to_string()) }));
    assert!(!show_archived(&AssetListQuery { category: None, archived: Some("0".to_string()) }));
    assert_eq!(default_categories().len(), 8);
    assert_eq!(default_categories()[0], "appliance");
}

#[test]
fn task_and_supply_rows() {
    let assets = vec![asset("a1", "Heater", "plumbing", 0)];
    let task = Task {
        id: "t1".to_string(),
        created_at: String::new(),
        updated_at: String::new(),
        asset_id: Some("a1".to_string()),
        name: "Drain".to_string(),
        description: None,
        schedule_mode: "fixed".to_string(),
        interval_value: None,
        interval_unit: None,
        season_anchor: Some("10-15".to_string()),
        fixed_interval_years: Some(2),
        estimated_minutes: None,
        active: 1,
    };
    let other = Task { id: "t2".to_string(), asset_id: None, ..task.clone() };
    let reminders = vec![Reminder {
        id: "r1".to_string(),
        created_at: String::new(),
        updated_at: String::new(),
        task_id: "t1".to_string(),
        due_date: "2025-10-15".to_string(),
        snoozed_until: None,
        last_notified_at: None,
    }];
    let rows = build_task_rows(&assets, &vec![task.clone(), other.clone()], &reminders, &None);
    assert_eq!(rows.len(), 2);
    assert_eq!(rows[0].asset_name, Some("Heater".to_string()));
    assert_eq!(rows[0].schedule, "every 2 years on 10-15");
    assert_eq!(rows[0].due_date, Some("2025-10-15".to_string()));
    assert_eq!(rows[1].due_date, None);
    let rows = build_task_rows(&assets, &vec![task, other], &reminders, &Some("a1".to_string()));
    assert_eq!(rows.len(), 1);
    let supplies = vec![Supply {
        id: "s1".to_string(),
        created_at: String::new(),
        updated_at: String::new(),
        name: "Filter".to_string(),
        spec: Some("20x20x1".to_string()),
        purchase_url: None,
        notes: None,
    }];
    let r = build_supply_rows(&supplies, &vec![("s1".to_string(), 3), ("s2".to_string(), 1)]);
    assert_eq!(r[0].task_count, 3);
    assert_eq!(build_supply_rows(&supplies, &vec![])[0].task_count, 0);
}
