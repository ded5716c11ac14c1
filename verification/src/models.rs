//! Data exchanged between the timer, the services and the user interface.

use vstd::prelude::*;

verus! {

/// A task as shown in the task list.
#[derive(Debug, Clone)]
pub struct Task {
    pub id: i64,
    pub name: String,
    pub budget_secs: i64,
    pub elapsed_secs: i64,
    pub running: bool,
    pub project_id: Option<i64>,
    pub project_name: Option<String>,
}

/// Whether a timer runs, for which task, and for how long in this entry.
#[derive(Debug, Clone)]
pub struct TimerStatus {
    pub running: bool,
    pub active_task_id: Option<i64>,
    pub current_entry_elapsed: i64,
}

/// Reported when the user comes back after an idle period during which a
/// running task was paused.
#[derive(Debug, Clone, PartialEq, Eq)]
pub struct IdleEvent {
    pub idle_duration_secs: i64,
    pub task_id: i64,
    pub task_name: String,
    pub tracking_active: bool,
}

/// The signed-in user.
#[derive(Debug, Clone)]
pub struct AuthUser {
    pub id: i64,
    pub email: String,
    pub name: Option<String>,
    pub picture: Option<String>,
}

/// The backend's answer to a login: an access token and the user.
#[derive(Debug, Clone)]
pub struct AuthResponse {
    pub access_token: String,
    pub user: AuthUser,
}

/// Event emitted when midnight timer reset occurs.
#[derive(Debug, Clone)]
pub struct MidnightResetEvent {
    /// Task ID that was running and synced before reset (if any)
    pub synced_task_id: Option<i64>,
    /// Elapsed seconds that were synced before reset
    pub synced_elapsed: i64,
    /// The new date (today) after the reset
    pub new_date: String,
}

/// A project the user is allocated to.
#[derive(Debug, Clone)]
pub struct Project {
    pub id: i64,
    pub name: String,
    pub color: Option<String>,
    pub task_count: i64,
}

/// State of the retry queue of sync operations.
#[derive(Debug, Clone)]
pub struct SyncQueueStatus {
    pub pending_count: usize,
    pub failed_count: usize,
    pub has_errors: bool,
    pub last_error: Option<String>,
}

/// The same optional string, duplicated.
pub fn clone_opt_string(s: &Option<String>) -> (r: Option<String>)
    ensures
        r == *s,
{
    match s {
        Some(t) => Some(t.clone()),
        None => None,
    }
}

impl Task {
    /// The same task, duplicated.
    pub fn copy(&self) -> (t: Task)
        ensures
            t == *self,
    {
        Task {
            id: self.id,
            name: self.name.clone(),
            budget_secs: self.budget_secs,
            elapsed_secs: self.elapsed_secs,
            running: self.running,
            project_id: self.project_id,
            project_name: clone_opt_string(&self.project_name),
        }
    }
}

} // verus!
