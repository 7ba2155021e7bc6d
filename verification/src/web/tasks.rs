//! The task list page and the task form.
use crate::domain::schedule::{describe_schedule, describe_spec, opt_view};
use crate::repo::assets::Asset;
use crate::repo::reminders::{opt_text, Reminder};
use crate::repo::tasks::{Task, TaskInput};
use crate::text::{clone_opt, str_eq};
use crate::web::assets::tasks_where;
use vstd::prelude::*;

verus! {

/// A task as the task list shows it.
#[derive(Debug, Clone, PartialEq, Eq)]
pub struct TaskRow {
    pub id: String,
    pub asset_name: Option<String>,
    pub name: String,
    pub description: Option<String>,
    pub schedule: String,
    pub due_date: Option<String>,
}

/// The filter of the task list.
#[derive(Debug, Clone, Default, PartialEq, Eq)]
pub struct TaskListQuery {
    pub asset_id: Option<String>,
}

/// The body of the form that creates or edits a task.
#[derive(Debug, Clone, Default, PartialEq, Eq)]
pub struct TaskFormPayload {
    pub asset_id: Option<String>,
    pub name: String,
    pub description: Option<String>,
    pub schedule_mode: String,
    pub interval_value: Option<i64>,
    pub interval_unit: Option<String>,
    pub season_anchor: Option<String>,
    pub fixed_interval_years: Option<i64>,
    pub estimated_minutes: Option<i64>,
    pub last_done_date: Option<String>,
}

/// The task fields of the form.
pub fn task_input_from_payload(payload: &TaskFormPayload) -> (r: TaskInput)
    ensures
        r == (TaskInput {
            asset_id: payload.asset_id,
            name: payload.name,
            description: payload.description,
            schedule_mode: payload.schedule_mode,
            interval_value: payload.interval_value,
            interval_unit: payload.interval_unit,
            season_anchor: payload.season_anchor,
            fixed_interval_years: payload.fixed_interval_years,
            estimated_minutes: payload.estimated_minutes,
        }),
{
    TaskInput {
        asset_id: clone_opt(&payload.asset_id),
        name: payload.name.clone(),
        description: clone_opt(&payload.description),
        schedule_mode: payload.schedule_mode.clone(),
        interval_value: payload.interval_value,
        interval_unit: clone_opt(&payload.interval_unit),
        season_anchor: clone_opt(&payload.season_anchor),
        fixed_interval_years: payload.fixed_interval_years,
        estimated_minutes: payload.estimated_minutes,
    }
}

/// The name of the asset with the id; of several, the last one listed.
pub open spec fn asset_name_of(assets: Seq<Asset>, id: Seq<char>) -> Option<String>
    decreases assets.len(),
{
    if assets.len() == 0 {
        None
    } else if assets.last().id@ == id {
        Some(assets.last().name)
    } else {
        asset_name_of(assets.drop_last(), id)
    }
}

/// The due date of the task's reminder; of several, the last one listed.
pub open spec fn due_date_of(reminders: Seq<Reminder>, task_id: Seq<char>) -> Option<String>
    decreases reminders.len(),
{
    if reminders.len() == 0 {
        None
    } else if reminders.last().task_id@ == task_id {
        Some(reminders.last().due_date)
    } else {
        due_date_of(reminders.drop_last(), task_id)
    }
}

fn lookup_asset_name(assets: &Vec<Asset>, id: &str) -> (r: Option<String>)
    ensures
        r == asset_name_of(assets@, id@),
{
    let mut i = assets.len();
    assert(assets@.take(i as int) =~= assets@);
    while i > 0
        invariant
            i <= assets@.len(),
            asset_name_of(assets@, id@) == asset_name_of(assets@.take(i as int), id@),
        decreases i,
    {
        assert(assets@.take(i as int).drop_last() =~= assets@.take(i - 1));
        if str_eq(assets[i - 1].id.as_str(), id) {
            return Some(assets[i - 1].name.clone());
        }
        i = i - 1;
    }
    None
}

fn lookup_due_date(reminders: &Vec<Reminder>, task_id: &str) -> (r: Option<String>)
    ensures
        r == due_date_of(reminders@, task_id@),
{
    let mut i = reminders.len();
    assert(reminders@.take(i as int) =~= reminders@);
    while i > 0
        invariant
            i <= reminders@.len(),
            due_date_of(reminders@, task_id@) == due_date_of(reminders@.take(i as int), task_id@),
        decreases i,
    {
        assert(reminders@.take(i as int).drop_last() =~= reminders@.take(i - 1));
        if str_eq(reminders[i - 1].task_id.as_str(), task_id) {
            return Some(reminders[i - 1].due_date.clone());
        }
        i = i - 1;
    }
    None
}

/// The task is listed under the filter: all tasks without one, else the asset's.
pub open spec fn task_listed(t: Task, filter: Option<String>) -> bool {
    filter matches Some(aid) ==> (t.asset_id matches Some(a) && a@ == aid@)
}

/// `row` shows task `t` with its asset's name and its reminder's due date.
pub open spec fn row_shows(row: TaskRow, t: Task, assets: Seq<Asset>, reminders: Seq<Reminder>) -> bool {
    &&& row.id == t.id
    &&& row.asset_name == match t.asset_id {
        Some(a) => asset_name_of(assets, a@),
        None => None,
    }
    &&& row.name == t.name
    &&& row.description == t.description
    &&& row.schedule@ == describe_spec(
        t.schedule_mode@,
        t.interval_value,
        opt_text(t.interval_unit),
        opt_text(t.season_anchor),
        t.fixed_interval_years,
    )
    &&& row.due_date == due_date_of(reminders, t.id@)
}

/// The rows of the task list, in the order of the tasks.
pub fn build_task_rows(
    assets: &Vec<Asset>,
    tasks: &Vec<Task>,
    reminders: &Vec<Reminder>,
    filter: &Option<String>,
) -> (r: Vec<TaskRow>)
    ensures
        r@.len() == tasks_where(tasks@, |t: Task| task_listed(t, *filter)).len(),
        forall|i: int|
            0 <= i < r@.len() ==> row_shows(
                #[trigger] r@[i],
                tasks_where(tasks@, |t: Task| task_listed(t, *filter))[i],
                assets@,
                reminders@,
            ),
{
    let ghost p = |t: Task| task_listed(t, *filter);
    let mut out: Vec<TaskRow> = Vec::new();
    let mut i: usize = 0;
    while i < tasks.len()
        invariant
            i <= tasks@.len(),
            p == (|t: Task| task_listed(t, *filter)),
            out@.len() == tasks_where(tasks@.take(i as int), p).len(),
            forall|k: int|
                0 <= k < out@.len() ==> row_shows(
                    #[trigger] out@[k],
                    tasks_where(tasks@.take(i as int), p)[k],
                    assets@,
                    reminders@,
                ),
        decreases tasks@.len() - i,
    {
        let t = &tasks[i];
        proof {
            assert(tasks@.take(i + 1).drop_last() =~= tasks@.take(i as int));
        }
        let listed = match filter {
            Some(aid) => match &t.asset_id {
                Some(a) => str_eq(a.as_str(), aid.as_str()),
                None => false,
            },
            None => true,
        };
        if listed {
            let asset_name = match &t.asset_id {
                Some(a) => lookup_asset_name(assets, a.as_str()),
                None => None,
            };
            let unit = match &t.interval_unit {
                Some(u) => Some(u.as_str()),
                None => None,
            };
            let anchor = match &t.season_anchor {
                Some(a) => Some(a.as_str()),
                None => None,
            };
            assert(opt_view(unit) == opt_text(t.interval_unit));
            assert(opt_view(anchor) == opt_text(t.season_anchor));
            let schedule = describe_schedule(
                t.schedule_mode.as_str(),
                t.interval_value,
                unit,
                anchor,
                t.fixed_interval_years,
            );
            let due_date = lookup_due_date(reminders, t.id.as_str());
            out.push(
                TaskRow {
                    id: t.id.clone(),
                    asset_name,
                    name: t.name.clone(),
                    description: clone_opt(&t.description),
                    schedule,
                    due_date,
                },
            );
        }
        i = i + 1;
    }
    assert(tasks@.take(tasks@.len() as int) =~= tasks@);
    out
}

/// The task list page.
#[derive(Debug, Clone, PartialEq, Eq)]
pub struct TaskListView {
    pub title: String,
    pub tasks: Vec<TaskRow>,
}

/// `r` shows the listed tasks, in order.
pub open spec fn rows_of_tasks(
    r: Seq<TaskRow>,
    assets: Seq<Asset>,
    tasks: Seq<Task>,
    reminders: Seq<Reminder>,
    filter: Option<String>,
) -> bool {
    &&& r.len() == tasks_where(tasks, |t: Task| task_listed(t, filter)).len()
    &&& forall|i: int|
        0 <= i < r.len() ==> row_shows(
            #[trigger] r[i],
            tasks_where(tasks, |t: Task| task_listed(t, filter))[i],
            assets,
            reminders,
        )
}

/// The task list, filtered by the asset of the query, if any.
pub fn task_list_view(
    assets: &Vec<Asset>,
    tasks: &Vec<Task>,
    reminders: &Vec<Reminder>,
    q: &TaskListQuery,
) -> (r: TaskListView)
    ensures
        r.title@ == "Tasks"@,
        rows_of_tasks(r.tasks@, assets@, tasks@, reminders@, q.asset_id),
{
    let rows = build_task_rows(assets, tasks, reminders, &q.asset_id);
    TaskListView { title: String::from_str("Tasks"), tasks: rows }
}

/// The form that creates or edits a task.
#[derive(Debug, Clone, PartialEq, Eq)]
pub struct TaskFormView {
    pub title: String,
    pub assets: Vec<Asset>,
    pub task: Option<Task>,
    pub is_edit: bool,
}

/// The task form: for a new task, or to edit the given one.
pub fn task_form_view(task: Option<Task>, assets: Vec<Asset>) -> (r: TaskFormView)
    ensures
        r.title@ == match task {
            Some(t) => "Edit "@ + t.name@,
            None => "New Task"@,
        },
        r.is_edit == task is Some,
        r.task == task,
        r.assets == assets,
{
    let (title, is_edit) = match &task {
        Some(t) => (String::from_str("Edit ").concat(t.name.as_str()), true),
        None => (String::from_str("New Task"), false),
    };
    TaskFormView { title, assets, task, is_edit }
}

} // verus!
