//! Log payloads of the API.
use crate::repo::log::LogEntryInput;
use vstd::prelude::*;

verus! {

/// The filters of a request that lists log entries.
#[derive(Debug, Clone, Default, PartialEq, Eq)]
pub struct ListQuery {
    pub asset_id: Option<String>,
    pub kind: Option<String>,
    pub tag: Option<String>,
    pub from: Option<String>,
    pub to: Option<String>,
    pub search: Option<String>,
}

/// The body of a request that records a log entry.
#[derive(Debug, Clone, Default, PartialEq, Eq)]
pub struct CreateEntryPayload {
    pub task_id: Option<String>,
    pub asset_id: Option<String>,
    pub kind: String,
    pub scheduled_date: Option<String>,
    pub completed_date: String,
    pub cost_cents: Option<i64>,
    pub vendor: Option<String>,
    pub performed_by: Option<String>,
    pub notes: Option<String>,
}

/// The log entry fields of a create request.
pub fn log_input_from_payload(p: CreateEntryPayload) -> (r: LogEntryInput)
    ensures
        r == (LogEntryInput {
            task_id: p.task_id,
            asset_id: p.asset_id,
            kind: p.kind,
            scheduled_date: p.scheduled_date,
            completed_date: p.completed_date,
            cost_cents: p.cost_cents,
            vendor: p.vendor,
            performed_by: p.performed_by,
            notes: p.notes,
        }),
{
    LogEntryInput {
        task_id: p.task_id,
        asset_id: p.asset_id,
        kind: p.kind,
        scheduled_date: p.scheduled_date,
        completed_date: p.completed_date,
        cost_cents: p.cost_cents,
        vendor: p.vendor,
        performed_by: p.performed_by,
        notes: p.notes,
    }
}

} // verus!
