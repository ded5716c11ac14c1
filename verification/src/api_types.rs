//! What the backend sends back, and the checks and conversions the library
//! applies to it.

use vstd::prelude::*;

use crate::models::{clone_opt_string, Project, Task};
use crate::text::{int_text, push_int_text};

verus! {

/// Project details (for the `/api/me/projects` response).
#[derive(Debug, Clone)]
pub struct ApiProject {
    pub id: i64,
    pub name: String,
    pub color: Option<String>,
    pub task_count: Option<i64>,
}

/// One task of the daily summary report.
#[derive(Debug, Clone)]
pub struct SummaryTask {
    pub task_id: i64,
    pub task_name: String,
    pub total_seconds: i64,
}

/// The daily summary report.
#[derive(Debug, Clone)]
pub struct SummaryReport {
    pub tasks: Vec<SummaryTask>,
    pub total_seconds: i64,
}

/// Response from the sync-time API, for handshake confirmation.
#[derive(Debug, Clone, Copy, PartialEq, Eq)]
pub struct SyncTimeResponse {
    pub id: i64,
    pub task_id: i64,
    pub duration: Option<i64>,
    pub is_synced: bool,
}

/// The task count of a project as shown: a missing count is zero.
pub open spec fn shown_count(c: Option<i64>) -> i64 {
    match c {
        Some(n) => n,
        None => 0,
    }
}

/// The project as the task list shows it.
pub fn project_from_api(p: &ApiProject) -> (r: Project)
    ensures
        r.id == p.id,
        r.name == p.name,
        r.color == p.color,
        r.task_count == shown_count(p.task_count),
{
    Project {
        id: p.id,
        name: p.name.clone(),
        color: clone_opt_string(&p.color),
        task_count: match p.task_count {
            Some(n) => n,
            None => 0,
        },
    }
}

/// The projects as the task list shows them, in order.
pub fn projects_from_api(ps: &Vec<ApiProject>) -> (r: Vec<Project>)
    ensures
        r@.len() == ps@.len(),
        forall|i: int|
            0 <= i < ps@.len() ==> (#[trigger] r@[i]).id == ps@[i].id && r@[i].name == ps@[i].name
                && r@[i].color == ps@[i].color && r@[i].task_count == shown_count(ps@[i].task_count),
{
    let mut out: Vec<Project> = Vec::new();
    let n = ps.len();
    for i in 0..n
        invariant
            n == ps@.len(),
            out@.len() == i,
            forall|k: int|
                0 <= k < i ==> (#[trigger] out@[k]).id == ps@[k].id && out@[k].name == ps@[k].name
                    && out@[k].color == ps@[k].color && out@[k].task_count == shown_count(
                    ps@[k].task_count,
                ),
    {
        out.push(project_from_api(&ps[i]));
    }
    out
}

/// The handshake of a sync: the backend must confirm the task that was
/// sent, else the sync fails with "Handshake failed: sent task_id={sent},
/// received task_id={received}".
pub fn verify_handshake(sent_task_id: i64, response: SyncTimeResponse) -> (r: Result<
    SyncTimeResponse,
    String,
>)
    ensures
        response.task_id == sent_task_id ==> r == Ok::<SyncTimeResponse, String>(response),
        response.task_id != sent_task_id ==> (r matches Err(m) && m@ == "Handshake failed: sent task_id="@
            + int_text(sent_task_id as int) + ", received task_id="@ + int_text(
            response.task_id as int,
        )),
{
    if response.task_id != sent_task_id {
        let mut m = String::from_str("Handshake failed: sent task_id=");
        push_int_text(&mut m, sent_task_id);
        m.append(", received task_id=");
        push_int_text(&mut m, response.task_id);
        return Err(m);
    }
    Ok(response)
}

/// A task of the timer's list, from the backend's fields: a task without
/// tracked time has none, and no task runs until the timer starts it.
pub fn timer_task(
    id: i64,
    name: String,
    budget_secs: i64,
    total_tracked_seconds: Option<i64>,
    project_id: Option<i64>,
    project_name: Option<String>,
) -> (t: Task)
    ensures
        t == (Task {
            id,
            name,
            budget_secs,
            elapsed_secs: match total_tracked_seconds {
                Some(s) => s,
                None => 0,
            },
            running: false,
            project_id,
            project_name,
        }),
{
    Task {
        id,
        name,
        budget_secs,
        elapsed_secs: match total_tracked_seconds {
            Some(s) => s,
            None => 0,
        },
        running: false,
        project_id,
        project_name,
    }
}

} // verus!
