use cookie::{CookieJar, Key};
use home_maintenance::domain::recurrence::parse_date;
use home_maintenance::repo::assets::Asset;
use home_maintenance::repo::attachments::Attachment;
use home_maintenance::repo::locations::Location;
use home_maintenance::repo::log::LogEntry;
use home_maintenance::repo::reminders::{Reminder, ReminderWithTask};
use home_maintenance::repo::supplies::Supply;
use home_maintenance::repo::tasks::Task;
use home_maintenance::web::assets::{asset_detail_view, asset_form_view, asset_list_view, AssetListQuery};
use home_maintenance::web::dashboard::{dashboard_view, RECENT_LOG_LIMIT};
use home_maintenance::web::session::{page_allowed, session_cookie, session_value_of, sign_session};
use home_maintenance::web::supplies::supply_list_view;
use home_maintenance::web::tasks::{task_form_view, task_list_view, TaskListQuery};

fn row(id: &str, due: &str) -> ReminderWithTask {
    ReminderWithTask {
        id: id.to_string(),
        task_id: format!("t-{id}"),
        task_name: format!("task {id}"),
        asset_id: None,
        asset_name: Some("Boiler".to_string()),
        due_date: due.to_string(),
        snoozed_until: None,
    }
}

fn entry(id: &str, cost: Option<i64>) -> LogEntry {
    LogEntry {
        id: id.to_string(),
        created_at: String::new(),
        updated_at: String::new(),
        task_id: None,
        asset_id: Some("a1".to_string()),
        kind: "service".to_string(),
        scheduled_date: None,
        completed_date: "2024-05-01".to_string(),
        cost_cents: cost,
        vendor: None,
        performed_by: None,
        notes: None,
    }
}

fn asset(id: &str, name: &str, category: &str, archived: i64) -> Asset {
    Asset {
        id: id.to_string(),
        created_at: String::new(),
        updated_at: String::new(),
        name: name.to_string(),
        location_id: None,
        category: category.to_string(),
        make: None,
        model: None,
        serial: None,
        install_date: None,
        warranty_end: None,
        notes: None,
        archived,
    }
}

fn location(id: &str, name: &str) -> Location {
    Location {
        id: id.to_string(),
        created_at: String::new(),
        updated_at: String::new(),
        name: name.to_string(),
        kind: "room".to_string(),
        parent_id: None,
    }
}

fn task(id: &str, asset_id: Option<&str>) -> Task {
    Task {
        id: id.to_string(),
        created_at: String::new(),
        updated_at: String::new(),
        asset_id: asset_id.map(|a| a.to_string()),
        name: "Drain".to_string(),
        description: None,
        schedule_mode: "floating".to_string(),
        interval_value: Some(3),
        interval_unit: Some("month".to_string()),
        season_anchor: None,
        fixed_interval_years: None,
        estimated_minutes: None,
        active: 1,
    }
}

#[test]
fn dashboard_view_title_groups_and_recent_log() {
    let today = parse_date("2024-08-01").unwrap();
    let rows = vec![row("1", "2024-07-01"), row("2", "2024-08-03"), row("3", "2024-12-01")];
    let log: Vec<LogEntry> = (0..25).map(|i| entry(&format!("e{i}"), None)).collect();
    let v = dashboard_view("Europe/Paris", today, rows, log);
    assert_eq!(v.title, "Home Maintenance — Europe/Paris");
    assert_eq!(v.recent_log.len(), RECENT_LOG_LIMIT);
    assert_eq!(v.recent_log[0].id, "e0");
    assert_eq!(v.recent_log[19].id, "e19");
    assert_eq!((v.counts.overdue, v.counts.due, v.counts.upcoming), (1, 1, 0));
    let card = v.overdue[0].card();
    assert_eq!(card._id, "1");
    assert_eq!(card.task_id, "t-1");
    assert_eq!(card._status, "overdue");
    assert_eq!(card.asset_name, Some("Boiler".to_string()));
    let short = dashboard_view("UTC", today, vec![], vec![entry("only", None)]);
    assert_eq!(short.recent_log.len(), 1);
    assert_eq!(short.title, "Home Maintenance — UTC");
}

#[test]
fn asset_pages() {
    let all = vec![
        asset("1", "Heater", "plumbing", 0),
        asset("2", "Old AC", "hvac", 1),
        asset("3", "Furnace", "hvac", 0),
    ];
    let v = asset_list_view(
        &all,
        AssetListQuery { category: Some("hvac".to_string()), archived: None },
        vec![location("l1", "Basement")],
    );
    assert_eq!(v.title, "Assets");
    assert_eq!(v.assets.iter().map(|a| a.id.as_str()).collect::<Vec<_>>(), vec!["3"]);
    assert_eq!(v.categories, vec!["hvac".to_string()]);
    assert_eq!(v.selected_category, Some("hvac".to_string()));
    assert!(!v.show_archived);
    assert_eq!(v.locations.len(), 1);
    let v = asset_list_view(&all, AssetListQuery { category: None, archived: Some("1".to_string()) }, vec![]);
    assert_eq!(v.assets.len(), 3);
    assert!(v.show_archived);
    assert_eq!(v.categories, vec!["hvac".to_string(), "plumbing".to_string()]);

    let form = asset_form_view(None, vec![]);
    assert_eq!(form.title, "New Asset");
    assert_eq!(form.categories.len(), 8);
    let form = asset_form_view(Some(asset("1", "Heater", "plumbing", 0)), vec![]);
    assert_eq!(form.title, "Edit Heater");

    let mut heater = asset("a1", "Heater", "plumbing", 0);
    heater.location_id = Some("l2".to_string());
    let attachment = Attachment {
        id: "f1".to_string(),
        created_at: String::new(),
        updated_at: String::new(),
        owner_type: "asset".to_string(),
        owner_id: "a1".to_string(),
        filename: "manual.pdf".to_string(),
        content_type: "application/pdf".to_string(),
        byte_size: 1234,
        caption: None,
    };
    let detail = asset_detail_view(
        heater,
        &vec![location("l1", "Basement"), location("l2", "Garage")],
        &vec![task("t1", Some("a1")), task("t2", Some("a9")), task("t3", None)],
        &vec![entry("e1", Some(100)), entry("e2", None), entry("e3", Some(250))],
        &vec![attachment],
    );
    assert_eq!(detail.title, "Heater");
    assert_eq!(detail.location.map(|l| l.name), Some("Garage".to_string()));
    assert_eq!(detail.tasks.len(), 1);
    assert_eq!(detail.tasks[0].schedule, "every 3 months after completion");
    assert_eq!(detail.log_entries.len(), 3);
    assert_eq!(detail.total_cost_cents, 350);
    assert_eq!(detail.attachments[0].filename, "manual.pdf");
}

#[test]
fn task_and_supply_pages() {
    let assets = vec![asset("a1", "Heater", "plumbing", 0)];
    let tasks = vec![task("t1", Some("a1")), task("t2", None)];
    let reminders = vec![Reminder {
        id: "r1".to_string(),
        created_at: String::new(),
        updated_at: String::new(),
        task_id: "t2".to_string(),
        due_date: "2025-01-01".to_string(),
        snoozed_until: None,
        last_notified_at: None,
    }];
    let v = task_list_view(&assets, &tasks, &reminders, &TaskListQuery { asset_id: None });
    assert_eq!(v.title, "Tasks");
    assert_eq!(v.tasks.len(), 2);
    assert_eq!(v.tasks[1].due_date, Some("2025-01-01".to_string()));
    let v = task_list_view(&assets, &tasks, &reminders, &TaskListQuery { asset_id: Some("a1".to_string()) });
    assert_eq!(v.tasks.len(), 1);
    assert_eq!(v.tasks[0].asset_name, Some("Heater".to_string()));

    let form = task_form_view(None, assets.clone());
    assert_eq!((form.title.as_str(), form.is_edit), ("New Task", false));
    let form = task_form_view(Some(task("t1", None)), assets);
    assert_eq!((form.title.as_str(), form.is_edit), ("Edit Drain", true));

    let supplies = vec![Supply {
        id: "s1".to_string(),
        created_at: String::new(),
        updated_at: String::new(),
        name: "Filter".to_string(),
        spec: None,
        purchase_url: None,
        notes: None,
    }];
    let v = supply_list_view(&supplies, &vec![("s1".to_string(), 2)]);
    assert_eq!(v.title, "Supplies");
    assert_eq!(v.supplies[0].task_count, 2);
}

fn secret() -> Vec<u8> {
    (0u8..64).collect()
}

fn signed(secret: &[u8], value: &str) -> String {
    let key = Key::from(secret);
    let mut jar = CookieJar::new();
    jar.signed_mut(&key).add(("session", value.to_string()));
    jar.get("session").unwrap().value().to_string()
}

#[test]
fn session_cookie_is_the_last_one_named_session() {
    assert_eq!(session_cookie("a=1; session=x; b=2"), Some("x".to_string()));
    assert_eq!(session_cookie("session=x;session=y"), Some("y".to_string()));
    assert_eq!(session_cookie("  session=%41b  "), Some("Ab".to_string()));
    assert_eq!(session_cookie("a=1; nosession=2"), None);
    assert_eq!(session_cookie(""), None);
}

#[test]
fn signed_session_cookie_is_checked() {
    let s = secret();
    let header = format!("theme=dark; session={}", signed(&s, "authenticated"));
    assert_eq!(session_value_of(&header, &s), Some("authenticated".to_string()));
    assert_eq!(session_value_of("session=authenticated", &s), None);
    let other_secret: Vec<u8> = (1u8..65).collect();
    assert_eq!(session_value_of(&header, &other_secret), None);
    assert!(page_allowed("/assets", Some(&header), &s));
    assert!(!page_allowed("/assets", Some("session=authenticated"), &s));
    assert!(!page_allowed("/assets", None, &s));
    assert!(page_allowed("/login", None, &s));
    assert!(page_allowed("/static/site.css", Some("session=bad"), &s));
    let someone = format!("session={}", signed(&s, "someone"));
    assert!(!page_allowed("/", Some(&someone), &s));
}

#[test]
fn signed_in_session_is_accepted() {
    let s = secret();
    let value = sign_session("authenticated", &s);
    assert_eq!(value, signed(&s, "authenticated"));
    assert_ne!(value, "authenticated");
    assert!(value.ends_with("authenticated"));
    let header = format!("session={value}");
    assert_eq!(session_value_of(&header, &s), Some("authenticated".to_string()));
    assert!(page_allowed("/tasks", Some(&header), &s));
    let cleared = sign_session("", &s);
    assert_eq!(session_value_of(&format!("a=b; session={cleared}"), &s), Some(String::new()));
    assert!(!page_allowed("/tasks", Some(&format!("session={cleared}")), &s));
}
