//! Local timer state that tracks everything without hitting the external API.
//!
//! The timer runs locally; the backend only receives time slots, which this
//! state hands out as [`SlotSync`] requests for the caller to send. Elapsed
//! time is protected against clock drift (negative intervals count as zero),
//! clock jumps (a live interval counts at most 24 hours) and unbounded totals
//! (a task's total is capped at one year).

use std::collections::HashMap;

use vstd::prelude::*;

use crate::clock::{
    date_text, day_date_text, local_day_of, now, seconds_between, whole_seconds_between, NANOS_PER_SEC,
};
use crate::models::{clone_opt_string, MidnightResetEvent, Task, TimerStatus};
use crate::text::{int_text, int_to_string, push_int_text};

verus! {

broadcast use vstd::std_specs::hash::group_hash_axioms;

/// Maximum reasonable elapsed time for a single session (24 hours in seconds).
pub const MAX_SESSION_SECS: i64 = 24 * 60 * 60;

/// Maximum total elapsed time tracked for a task (1 year in seconds).
pub const MAX_TOTAL_ELAPSED_SECS: i64 = 365 * 24 * 60 * 60;

/// A live interval with the clock protections applied: negative intervals
/// (clock went backward) count as zero, intervals over 24 hours count as 24
/// hours.
pub open spec fn clamp_session(e: int) -> int {
    if e < 0 {
        0
    } else if e > MAX_SESSION_SECS {
        MAX_SESSION_SECS as int
    } else {
        e
    }
}

/// A total capped at one year.
pub open spec fn cap_total(t: int) -> int {
    if t > MAX_TOTAL_ELAPSED_SECS {
        MAX_TOTAL_ELAPSED_SECS as int
    } else {
        t
    }
}

/// `max(e, 0)`.
pub open spec fn non_negative(e: int) -> int {
    if e < 0 {
        0
    } else {
        e
    }
}

/// The value stored for `k`, or `d` when there is none.
pub open spec fn get_or(m: Map<i64, i64>, k: i64, d: int) -> int {
    if m.contains_key(k) {
        m[k] as int
    } else {
        d
    }
}

/// A time slot to report to the backend (`api::sync_time`).
#[derive(Debug, Clone, Copy, PartialEq, Eq)]
pub struct SlotSync {
    pub task_id: i64,
    /// Seconds worked since the previous report of this session.
    pub slot_seconds: i64,
    /// Start of the timer session (nanoseconds since the epoch).
    pub session_start: i64,
    /// End of the slot (nanoseconds since the epoch).
    pub slot_end: i64,
    /// `true` when the session ends with this slot.
    pub is_final: bool,
}

/// Information returned when stopping a timer locally.
#[derive(Debug, Clone, Copy, PartialEq, Eq)]
pub struct StopInfo {
    pub task_id: i64,
    /// When the stopped run started (nanoseconds since the epoch).
    pub started_at: i64,
    pub elapsed_secs: i64,
}

/// Information returned when a midnight reset occurs.
#[derive(Debug, Clone, Copy, PartialEq, Eq)]
pub struct MidnightResetInfo {
    /// Task ID that was synced before reset (if any)
    pub synced_task_id: Option<i64>,
    /// Elapsed seconds that were synced
    pub synced_elapsed: i64,
}

/// A midnight reset that took place: the final slot of the timer that was
/// running, if it has time to report.
#[derive(Debug, Clone, Copy, PartialEq, Eq)]
pub struct MidnightReset {
    pub sync: Option<SlotSync>,
}

impl MidnightReset {
    /// What the reset reports once the final slot was sent: the slot counts
    /// as synced only when the backend confirmed it.
    pub fn info(&self, sync_succeeded: bool) -> (info: MidnightResetInfo)
        ensures
            info == (match self.sync {
                Some(s) if sync_succeeded => MidnightResetInfo {
                    synced_task_id: Some(s.task_id),
                    synced_elapsed: s.slot_seconds,
                },
                _ => MidnightResetInfo { synced_task_id: None, synced_elapsed: 0 },
            }),
    {
        match self.sync {
            Some(s) if sync_succeeded => MidnightResetInfo {
                synced_task_id: Some(s.task_id),
                synced_elapsed: s.slot_seconds,
            },
            _ => MidnightResetInfo { synced_task_id: None, synced_elapsed: 0 },
        }
    }
}

/// What the periodic slot sync has to do.
#[derive(Debug, Clone, Copy, PartialEq, Eq)]
pub enum SlotCheck {
    /// No timer session is running: nothing is reported.
    NotRunning,
    /// A session runs but no time passed since the last report.
    NothingToSync,
    /// Report this slot.
    Send(SlotSync),
}

/// Local timer state.
#[derive(Debug)]
pub struct TimerStateInner {
    /// Cached task list from the last API sync
    pub cached_tasks: Vec<Task>,
    /// Currently running task id
    pub running_task_id: Option<i64>,
    /// When the current timer session was started
    pub session_started_at: Option<i64>,
    /// When the last sync slot ended
    pub last_slot_sync_at: Option<i64>,
    /// When the current timer was started (local clock for UI display)
    pub timer_started_at: Option<i64>,
    /// Last task id we ran (used for resume)
    pub last_task_id: Option<i64>,
    /// Last time we synced with the external API (`None`: never)
    pub last_sync_at: Option<i64>,
    /// Elapsed seconds accumulated before current run
    pub base_elapsed: HashMap<i64, i64>,
    /// Total elapsed sent to backend in last sync
    pub last_synced_elapsed: HashMap<i64, i64>,
    /// The local day for which we are tracking time (resets at midnight)
    pub current_day: i32,
}

/// The task-list entry of a freshly fetched task: its elapsed time lives in
/// the base map and its running flag in the timer.
pub open spec fn cached_form(t: Task) -> Task {
    Task { elapsed_secs: 0, running: false, ..t }
}

/// The base map after a refresh with `tasks`: each task's fetched elapsed
/// time replaces the stored one, except for the running task.
pub open spec fn base_after_refresh(base: Map<i64, i64>, tasks: Seq<Task>, running: Option<i64>) -> Map<
    i64,
    i64,
>
    decreases tasks.len(),
{
    if tasks.len() == 0 {
        base
    } else {
        let b = base_after_refresh(base, tasks.drop_last(), running);
        let t = tasks.last();
        if running == Some(t.id) {
            b
        } else {
            b.insert(t.id, t.elapsed_secs)
        }
    }
}

/// The first cached task with id `id`, if any.
pub open spec fn find_task(tasks: Seq<Task>, id: i64) -> Option<Task>
    decreases tasks.len(),
{
    if tasks.len() == 0 {
        None
    } else if tasks[0].id == id {
        Some(tasks[0])
    } else {
        find_task(tasks.drop_first(), id)
    }
}

impl TimerStateInner {
    /// The tracking day.
    pub open spec fn day(&self) -> i32 {
        self.current_day
    }

    /// The running interval in seconds, with the clock protections applied;
    /// zero when no timer runs.
    pub open spec fn live_secs(&self, now: i64) -> int {
        match (self.running_task_id, self.timer_started_at) {
            (Some(_), Some(s)) => clamp_session(seconds_between(now as int, s as int)),
            _ => 0,
        }
    }

    /// A task's total: its base plus the live interval when it runs, capped
    /// at one year.
    pub open spec fn total_elapsed(&self, task_id: i64, now: i64) -> int {
        let live = if self.running_task_id == Some(task_id) {
            self.live_secs(now)
        } else {
            0
        };
        cap_total(get_or(self.base_elapsed@, task_id, 0) + live)
    }

    /// A cached task as the task list shows it at `now`.
    pub open spec fn listed(&self, t: Task, now: i64) -> Task {
        let running = self.running_task_id == Some(t.id);
        let live = if running {
            self.live_secs(now)
        } else {
            0
        };
        Task {
            elapsed_secs: cap_total(get_or(self.base_elapsed@, t.id, t.elapsed_secs as int) + live)
                as i64,
            running,
            ..t
        }
    }

    /// The name under which idle detection reports a paused task: its
    /// cached name, or "Task {id}" when it is not cached.
    pub open spec fn label_name(&self, id: i64) -> Seq<char> {
        match find_task(self.cached_tasks@, id) {
            Some(t) => t.name@,
            None => "Task "@ + int_text(id as int),
        }
    }

    /// `post` is `self` after `mark_synced(task_id, synced_elapsed)` at `now`.
    pub open spec fn marked_synced(&self, post: &Self, task_id: i64, synced_elapsed: i64, now: i64) -> bool {
        &&& post.same_cache(self)
        &&& post.base_elapsed@ == self.base_elapsed@.insert(task_id, synced_elapsed)
        &&& post.last_synced_elapsed@ == self.last_synced_elapsed@.insert(task_id, synced_elapsed)
        &&& post.timer_started_at == (if self.running_task_id == Some(task_id) {
            Some(now)
        } else {
            self.timer_started_at
        })
        &&& post.running_task_id == self.running_task_id
        &&& post.session_started_at == self.session_started_at
        &&& post.last_slot_sync_at == self.last_slot_sync_at
        &&& post.last_task_id == self.last_task_id
    }

    /// `post` and `reset` are `self` and the result after
    /// `check_midnight_reset` on the local day `today` at `now`.
    pub open spec fn midnight_checked(&self, post: &Self, today: i32, now: i64, reset: Option<MidnightReset>) -> bool {
        &&& today == self.day() ==> {
            &&& reset is None
            &&& *post == *self
        }
        &&& today != self.day() ==> {
            &&& reset == Some(MidnightReset { sync: self.midnight_slot(now) })
            &&& post.base_elapsed@ == Map::<i64, i64>::empty()
            &&& post.last_synced_elapsed@ == Map::<i64, i64>::empty()
            &&& post.day() == today
            &&& post.running_task_id is None
            &&& post.cached_tasks@ == self.cached_tasks@
            &&& post.last_sync_at == self.last_sync_at
            &&& match self.running_task_id {
                Some(id) => {
                    &&& post.timer_started_at is None
                    &&& post.session_started_at is None
                    &&& post.last_slot_sync_at is None
                    &&& post.last_task_id == Some(id)
                },
                None => {
                    &&& post.timer_started_at == self.timer_started_at
                    &&& post.session_started_at == self.session_started_at
                    &&& post.last_slot_sync_at == self.last_slot_sync_at
                    &&& post.last_task_id == self.last_task_id
                },
            }
        }
    }

    /// The task list at `now`.
    pub open spec fn listed_tasks(&self, now: i64) -> Seq<Task> {
        self.cached_tasks@.map_values(|t: Task| self.listed(t, now))
    }

    /// All fields but the timer fields named by the caller stay: helper for
    /// the transition relations below.
    pub open spec fn same_cache(&self, other: &Self) -> bool {
        &&& other.cached_tasks@ == self.cached_tasks@
        &&& other.last_sync_at == self.last_sync_at
        &&& other.day() == self.day()
    }

    /// The base map after the running timer is stopped at `now`.
    pub open spec fn base_after_stop(&self, now: i64) -> Map<i64, i64> {
        match (self.running_task_id, self.timer_started_at) {
            (Some(id), Some(s)) => self.base_elapsed@.insert(
                id,
                cap_total(
                    get_or(self.base_elapsed@, id, 0) + clamp_session(
                        seconds_between(now as int, s as int),
                    ),
                ) as i64,
            ),
            _ => self.base_elapsed@,
        }
    }

    /// `post` is `self` after the running timer was stopped locally at
    /// `now`. A timer without a start time is left as it is.
    pub open spec fn stopped_locally(&self, post: &Self, now: i64) -> bool {
        &&& self.same_cache(post)
        &&& post.base_elapsed@ == self.base_after_stop(now)
        &&& post.last_synced_elapsed@ == self.last_synced_elapsed@
        &&& post.session_started_at == self.session_started_at
        &&& post.last_slot_sync_at == self.last_slot_sync_at
        &&& match (self.running_task_id, self.timer_started_at) {
            (Some(id), Some(_)) => {
                &&& post.running_task_id is None
                &&& post.timer_started_at is None
                &&& post.last_task_id == Some(id)
            },
            _ => {
                &&& post.running_task_id == self.running_task_id
                &&& post.timer_started_at == self.timer_started_at
                &&& post.last_task_id == self.last_task_id
            },
        }
    }

    /// The slot that stopping the timer at `now` reports: the seconds since
    /// the last report (or, without one, the stopped run's seconds), when
    /// there are any.
    pub open spec fn final_slot(&self, now: i64) -> Option<SlotSync> {
        match (self.running_task_id, self.timer_started_at) {
            (Some(id), Some(s)) => {
                let run = clamp_session(seconds_between(now as int, s as int));
                let slot = match self.last_slot_sync_at {
                    Some(ls) => non_negative(seconds_between(now as int, ls as int)),
                    None => run,
                };
                if slot > 0 {
                    Some(
                        SlotSync {
                            task_id: id,
                            slot_seconds: slot as i64,
                            session_start: match self.session_started_at {
                                Some(ss) => ss,
                                None => s,
                            },
                            slot_end: now,
                            is_final: true,
                        },
                    )
                } else {
                    None
                }
            },
            _ => None,
        }
    }

    /// `post` is `self` after `stop_current` at `now`: the timer stopped
    /// locally and the session tracking cleared.
    pub open spec fn stopped(&self, post: &Self, now: i64) -> bool {
        &&& self.same_cache(post)
        &&& post.base_elapsed@ == self.base_after_stop(now)
        &&& post.last_synced_elapsed@ == self.last_synced_elapsed@
        &&& post.session_started_at is None
        &&& post.last_slot_sync_at is None
        &&& match (self.running_task_id, self.timer_started_at) {
            (Some(id), Some(_)) => {
                &&& post.running_task_id is None
                &&& post.timer_started_at is None
                &&& post.last_task_id == Some(id)
            },
            _ => {
                &&& post.running_task_id == self.running_task_id
                &&& post.timer_started_at == self.timer_started_at
                &&& post.last_task_id == self.last_task_id
            },
        }
    }

    /// `post` runs `task_id` from `now`, all else as in `self`.
    pub open spec fn runs_from(&self, post: &Self, task_id: i64, now: i64) -> bool {
        &&& post.running_task_id == Some(task_id)
        &&& post.session_started_at == Some(now)
        &&& post.last_slot_sync_at == Some(now)
        &&& post.timer_started_at == Some(now)
        &&& post.last_task_id == Some(task_id)
    }

    /// `post` is `self` after `resume_with_idle_time(task_id, idle_secs)` at
    /// `now`: the idle seconds join the task's base and the task runs from
    /// `now`.
    pub open spec fn resumed(&self, post: &Self, task_id: i64, idle_secs: i64, now: i64) -> bool {
        &&& self.same_cache(post)
        &&& post.base_elapsed@ == self.base_elapsed@.insert(
            task_id,
            (get_or(self.base_elapsed@, task_id, 0) + idle_secs) as i64,
        )
        &&& post.last_synced_elapsed@ == self.last_synced_elapsed@
        &&& self.runs_from(post, task_id, now)
    }

    /// `post` is `self` after taking in `fetched`, the task list that the
    /// API returned for `token`, at `now`. Without a token, on a failed
    /// fetch, or when an empty list would replace a non-empty one, nothing
    /// changes; otherwise the fetched elapsed times become the bases of all
    /// tasks but the running one, the list becomes the cache, and `now` the
    /// last sync time. The timer fields never change.
    pub open spec fn api_synced(
        &self,
        post: &Self,
        token: Option<String>,
        fetched: Result<Vec<Task>, String>,
        now: i64,
    ) -> bool {
        &&& if token is Some && fetched is Ok && !(fetched->Ok_0@.len() == 0
            && self.cached_tasks@.len() > 0) {
            &&& post.base_elapsed@ == base_after_refresh(
                self.base_elapsed@,
                fetched->Ok_0@,
                self.running_task_id,
            )
            &&& post.cached_tasks@ == fetched->Ok_0@.map_values(|t: Task| cached_form(t))
            &&& post.last_sync_at == Some(now)
        } else {
            &&& post.base_elapsed@ == self.base_elapsed@
            &&& post.cached_tasks@ == self.cached_tasks@
            &&& post.last_sync_at == self.last_sync_at
        }
        &&& post.running_task_id == self.running_task_id
        &&& post.session_started_at == self.session_started_at
        &&& post.last_slot_sync_at == self.last_slot_sync_at
        &&& post.timer_started_at == self.timer_started_at
        &&& post.last_task_id == self.last_task_id
        &&& post.last_synced_elapsed@ == self.last_synced_elapsed@
        &&& post.day() == self.day()
    }

    /// `post` is `self` after `start_task(task_id)` at `now`.
    pub open spec fn started(&self, post: &Self, task_id: i64, now: i64) -> bool {
        &&& self.same_cache(post)
        &&& post.last_synced_elapsed@ == self.last_synced_elapsed@
        &&& if self.running_task_id == Some(task_id) {
            &&& post.base_elapsed@ == self.base_elapsed@
            &&& post.running_task_id == self.running_task_id
            &&& post.session_started_at == self.session_started_at
            &&& post.last_slot_sync_at == self.last_slot_sync_at
            &&& post.timer_started_at == self.timer_started_at
            &&& post.last_task_id == self.last_task_id
        } else {
            &&& post.base_elapsed@ == self.base_after_stop(now)
            &&& self.runs_from(post, task_id, now)
        }
    }

    /// Creates a new empty timer state for the local day `today`.
    pub fn new_on(today: i32) -> (s: Self)
        ensures
            s.cached_tasks@.len() == 0,
            s.running_task_id is None,
            s.session_started_at is None,
            s.last_slot_sync_at is None,
            s.timer_started_at is None,
            s.last_task_id is None,
            s.last_sync_at is None,
            s.base_elapsed@ == Map::<i64, i64>::empty(),
            s.last_synced_elapsed@ == Map::<i64, i64>::empty(),
            s.day() == today,
    {
        TimerStateInner {
            cached_tasks: Vec::new(),
            running_task_id: None,
            session_started_at: None,
            last_slot_sync_at: None,
            timer_started_at: None,
            last_task_id: None,
            last_sync_at: None,
            base_elapsed: HashMap::new(),
            last_synced_elapsed: HashMap::new(),
            current_day: today,
        }
    }

    /// Creates a new empty timer state for the current local day.
    pub fn new() -> (s: Self)
        ensures
            s.cached_tasks@.len() == 0,
            s.running_task_id is None,
            s.session_started_at is None,
            s.last_slot_sync_at is None,
            s.timer_started_at is None,
            s.last_task_id is None,
            s.last_sync_at is None,
            s.base_elapsed@ == Map::<i64, i64>::empty(),
            s.last_synced_elapsed@ == Map::<i64, i64>::empty(),
    {
        Self::new_on(local_day_of(now()))
    }

    /// Returns `true` if a timer is currently running.
    pub fn is_running(&self) -> (r: bool)
        ensures
            r == self.running_task_id is Some,
    {
        self.running_task_id.is_some()
    }

    /// Whether a timer runs for a task other than `task_id`: starting
    /// `task_id` then stops it first.
    pub fn runs_other_than(&self, task_id: i64) -> (r: bool)
        ensures
            r == (self.running_task_id is Some && self.running_task_id != Some(task_id)),
    {
        match self.running_task_id {
            Some(id) => id != task_id,
            None => false,
        }
    }

    /// Returns the current tracking day.
    pub fn current_day(&self) -> (d: i32)
        ensures
            d == self.day(),
    {
        self.current_day
    }

    fn base_of(&self, task_id: i64, default: i64) -> (b: i64)
        ensures
            b == get_or(self.base_elapsed@, task_id, default as int),
    {
        match self.base_elapsed.get(&task_id) {
            Some(b) => *b,
            None => default,
        }
    }

    fn live_at(&self, now: i64) -> (live: i64)
        ensures
            live == self.live_secs(now),
            0 <= live <= MAX_SESSION_SECS,
    {
        match (self.running_task_id, self.timer_started_at) {
            (Some(_), Some(started)) => clamp_elapsed(whole_seconds_between(now, started)),
            _ => 0,
        }
    }

    /// Total elapsed for a task at `now` (base plus live, with the clock
    /// protections).
    pub fn get_total_elapsed_at(&self, task_id: i64, now: i64) -> (total: i64)
        ensures
            total == self.total_elapsed(task_id, now),
            total <= MAX_TOTAL_ELAPSED_SECS,
    {
        let base = self.base_of(task_id, 0);
        let live = if self.running_task_id == Some(task_id) {
            self.live_at(now)
        } else {
            0
        };
        add_capped(base, live)
    }

    /// Get total elapsed for a running task (base + live).
    pub fn get_total_elapsed(&self, task_id: i64) -> (total: i64)
        ensures
            exists|t: i64| total == self.total_elapsed(task_id, t),
    {
        let t = now();
        self.get_total_elapsed_at(task_id, t)
    }

    /// Called after a successful sync at `now`: the synced total becomes the
    /// task's base and, when the task runs, its live interval restarts.
    pub fn mark_synced_at(&mut self, task_id: i64, synced_elapsed: i64, now: i64)
        ensures
            old(self).marked_synced(final(self), task_id, synced_elapsed, now),
    {
        self.base_elapsed.insert(task_id, synced_elapsed);
        self.last_synced_elapsed.insert(task_id, synced_elapsed);
        if self.running_task_id == Some(task_id) {
            self.timer_started_at = Some(now);
        }
    }

    /// Called after successful sync - updates base and resets timer.
    pub fn mark_synced(&mut self, task_id: i64, synced_elapsed: i64)
        ensures
            exists|t: i64| #[trigger] old(self).marked_synced(final(self), task_id, synced_elapsed, t),
            final(self).base_elapsed@ == old(self).base_elapsed@.insert(task_id, synced_elapsed),
            final(self).last_synced_elapsed@ == old(self).last_synced_elapsed@.insert(
                task_id,
                synced_elapsed,
            ),
            final(self).running_task_id == old(self).running_task_id,
            old(self).running_task_id != Some(task_id) ==> final(self).timer_started_at == old(
                self,
            ).timer_started_at,
    {
        let t = now();
        self.mark_synced_at(task_id, synced_elapsed, t);
    }

    /// The task list at `now`: each cached task with its locally computed
    /// elapsed time and running flag.
    pub fn get_tasks_at(&self, now: i64) -> (tasks: Vec<Task>)
        ensures
            tasks@ == self.cached_tasks@.map_values(|t: Task| self.listed(t, now)),
    {
        let live_elapsed = self.live_at(now);
        let mut out: Vec<Task> = Vec::new();
        let n = self.cached_tasks.len();
        for i in 0..n
            invariant
                n == self.cached_tasks@.len(),
                live_elapsed == self.live_secs(now),
                out@ == self.cached_tasks@.take(i as int).map_values(
                    |t: Task| self.listed(t, now),
                ),
        {
            let t = &self.cached_tasks[i];
            let base = self.base_of(t.id, t.elapsed_secs);
            let is_running = self.running_task_id == Some(t.id);
            let total = add_capped(base, if is_running { live_elapsed } else { 0 });
            out.push(
                Task {
                    id: t.id,
                    name: t.name.clone(),
                    budget_secs: t.budget_secs,
                    elapsed_secs: total,
                    running: is_running,
                    project_id: t.project_id,
                    project_name: clone_opt_string(&t.project_name),
                },
            );
            assert(self.cached_tasks@.take(i + 1) =~= self.cached_tasks@.take(i as int).push(
                self.cached_tasks@[i as int],
            ));
        }
        assert(self.cached_tasks@.take(n as int) =~= self.cached_tasks@);
        out
    }

    /// Get tasks with locally computed elapsed time.
    pub fn get_tasks(&self) -> (tasks: Vec<Task>)
        ensures
            exists|t: i64| tasks@ == #[trigger] self.listed_tasks(t),
    {
        let t = now();
        let tasks = self.get_tasks_at(t);
        assert(tasks@ == self.listed_tasks(t));
        tasks
    }

    /// Takes in a task list fetched from the API at `now` (`fetched`, the
    /// result of `api::list_tasks` for `token`). Without a token, on a
    /// failed fetch, or when an empty list would replace a non-empty one
    /// (a temporary API issue), nothing changes. Otherwise the fetched
    /// elapsed times become the bases of all tasks but the running one, the
    /// list becomes the cache, and `now` the last sync time.
    pub fn sync_from_api_at(
        &mut self,
        token: &Option<String>,
        fetched: Result<Vec<Task>, String>,
        now: i64,
    )
        ensures
            old(self).api_synced(final(self), *token, fetched, now),
    {
        if token.is_none() {
            return ;
        }
        let tasks = match fetched {
            Ok(tasks) => tasks,
            Err(_) => {
                return ;
            },
        };
        if tasks.len() == 0 && self.cached_tasks.len() > 0 {
            return ;
        }
        let n = tasks.len();
        let ghost base0 = self.base_elapsed@;
        for i in 0..n
            invariant
                n == tasks@.len(),
                self.base_elapsed@ == base_after_refresh(
                    base0,
                    tasks@.take(i as int),
                    self.running_task_id,
                ),
                self.running_task_id == old(self).running_task_id,
                self.session_started_at == old(self).session_started_at,
                self.last_slot_sync_at == old(self).last_slot_sync_at,
                self.timer_started_at == old(self).timer_started_at,
                self.last_task_id == old(self).last_task_id,
                self.last_synced_elapsed@ == old(self).last_synced_elapsed@,
                self.current_day == old(self).current_day,
                self.cached_tasks@ == old(self).cached_tasks@,
                self.last_sync_at == old(self).last_sync_at,
                base0 == old(self).base_elapsed@,
        {
            let t = &tasks[i];
            assert(tasks@.take(i + 1).drop_last() =~= tasks@.take(i as int));
            if self.running_task_id != Some(t.id) {
                self.base_elapsed.insert(t.id, t.elapsed_secs);
            }
        }
        assert(tasks@.take(n as int) =~= tasks@);
        let mut cached: Vec<Task> = Vec::new();
        for i in 0..n
            invariant
                n == tasks@.len(),
                cached@ == tasks@.take(i as int).map_values(|t: Task| cached_form(t)),
        {
            let t = &tasks[i];
            cached.push(
                Task {
                    id: t.id,
                    name: t.name.clone(),
                    budget_secs: t.budget_secs,
                    elapsed_secs: 0,
                    running: false,
                    project_id: t.project_id,
                    project_name: clone_opt_string(&t.project_name),
                },
            );
            assert(tasks@.take(i + 1) =~= tasks@.take(i as int).push(tasks@[i as int]));
        }
        self.cached_tasks = cached;
        self.last_sync_at = Some(now);
    }

    /// Sync cached data from the external API (see `sync_from_api_at`).
    pub fn sync_from_api(&mut self, token: &Option<String>, fetched: Result<Vec<Task>, String>)
        ensures
            exists|t: i64| #[trigger] old(self).api_synced(final(self), *token, fetched, t),
            final(self).running_task_id == old(self).running_task_id,
            final(self).timer_started_at == old(self).timer_started_at,
    {
        let t = now();
        self.sync_from_api_at(token, fetched, t);
    }

    /// Stop the currently running timer locally at `now` (no API call).
    /// Returns information about the stopped run, or `None` when no timer
    /// with a start time was running.
    pub fn stop_current_local_at(&mut self, now: i64) -> (info: Option<StopInfo>)
        ensures
            old(self).stopped_locally(final(self), now),
            info == old(self).stop_info(now),
    {
        let task_id = match self.running_task_id {
            Some(id) => id,
            None => {
                return None;
            },
        };
        let started_at = match self.timer_started_at {
            Some(s) => s,
            None => {
                return None;
            },
        };
        let elapsed = clamp_elapsed(whole_seconds_between(now, started_at));
        let base = self.base_of(task_id, 0);
        self.base_elapsed.insert(task_id, add_capped(base, elapsed));
        self.running_task_id = None;
        self.timer_started_at = None;
        self.last_task_id = Some(task_id);
        Some(StopInfo { task_id, started_at, elapsed_secs: elapsed })
    }

    /// Stop the currently running timer locally (no API call).
    pub fn stop_current_local(&mut self) -> (info: Option<StopInfo>)
        ensures
            exists|t: i64|
                old(self).stopped_locally(final(self), t) && info == #[trigger] old(self).stop_info(t),
    {
        let t = now();
        self.stop_current_local_at(t)
    }

    /// Stop the currently running timer at `now` and end the session:
    /// returns the final slot to report to the backend, if it has time.
    pub fn stop_current_at(&mut self, now: i64) -> (sync: Option<SlotSync>)
        ensures
            old(self).stopped(final(self), now),
            sync == old(self).final_slot(now),
    {
        let session_start = self.session_started_at;
        let last_slot_sync = self.last_slot_sync_at;
        let mut sync = None;
        if let Some(info) = self.stop_current_local_at(now) {
            let slot_seconds = match last_slot_sync {
                Some(last_sync) => {
                    let s = whole_seconds_between(now, last_sync);
                    if s < 0 {
                        0
                    } else {
                        s
                    }
                },
                None => info.elapsed_secs,
            };
            if slot_seconds > 0 {
                sync =
                Some(
                    SlotSync {
                        task_id: info.task_id,
                        slot_seconds,
                        session_start: match session_start {
                            Some(ss) => ss,
                            None => info.started_at,
                        },
                        slot_end: now,
                        is_final: true,
                    },
                );
            }
        }
        self.session_started_at = None;
        self.last_slot_sync_at = None;
        sync
    }

    /// Stop the currently running timer and end the session; the returned
    /// slot is to be synced to the backend.
    pub fn stop_current(&mut self) -> (sync: Option<SlotSync>)
        ensures
            exists|t: i64| old(self).stopped(final(self), t) && sync == old(self).final_slot(t),
    {
        let t = now();
        self.stop_current_at(t)
    }

    /// The result of stopping the timer once its final slot went to the
    /// backend: `sent` is the outcome of sending the slot that `stop_current`
    /// returned (`None` when it returned none). An error if synchronization
    /// failed, though timing data is preserved locally; `Ok` otherwise.
    pub fn stop_result(sent: Option<Result<(), String>>) -> (r: Result<(), String>)
        ensures
            r == match sent {
                Some(Err(e)) => Err::<(), String>(e),
                _ => Ok(()),
            },
    {
        match sent {
            Some(Err(e)) => Err(e),
            _ => Ok(()),
        }
    }

    /// Start a timer for a task at `now`. A timer already running for the
    /// task is left alone; a timer running for another task is stopped
    /// first, and its final slot returned for syncing.
    pub fn start_task_at(&mut self, task_id: i64, now: i64) -> (sync: Option<SlotSync>)
        ensures
            old(self).started(final(self), task_id, now),
            sync == (if old(self).running_task_id is Some && old(self).running_task_id != Some(
                task_id,
            ) {
                old(self).final_slot(now)
            } else {
                None
            }),
    {
        let mut sync = None;
        if let Some(current_id) = self.running_task_id {
            if current_id != task_id {
                sync = self.stop_current_at(now);
            } else {
                return None;
            }
        }
        self.running_task_id = Some(task_id);
        self.session_started_at = Some(now);
        self.last_slot_sync_at = Some(now);
        self.timer_started_at = Some(now);
        self.last_task_id = Some(task_id);
        sync
    }

    /// Start a timer for a task (see `start_task_at`).
    pub fn start_task(&mut self, task_id: i64) -> (sync: Option<SlotSync>)
        ensures
            exists|t: i64|
                #[trigger] old(self).started(final(self), task_id, t) && sync == (if old(
                    self,
                ).running_task_id is Some && old(self).running_task_id != Some(task_id) {
                    old(self).final_slot(t)
                } else {
                    None
                }),
            final(self).running_task_id == Some(task_id),
    {
        let t = now();
        self.start_task_at(task_id, t)
    }

    /// Resume a task after idle at `now`, adding the idle duration to its
    /// base as work time. A timer running for another task is replaced
    /// without being stopped.
    pub fn resume_with_idle_time_at(&mut self, task_id: i64, idle_secs: i64, now: i64)
        requires
            i64::MIN <= get_or(old(self).base_elapsed@, task_id, 0) + idle_secs <= i64::MAX,
        ensures
            old(self).resumed(final(self), task_id, idle_secs, now),
    {
        let base = self.base_of(task_id, 0);
        self.base_elapsed.insert(task_id, base + idle_secs);
        self.running_task_id = Some(task_id);
        self.session_started_at = Some(now);
        self.last_slot_sync_at = Some(now);
        self.timer_started_at = Some(now);
        self.last_task_id = Some(task_id);
    }

    /// Resume a task after idle, adding the idle duration as work time.
    pub fn resume_with_idle_time(&mut self, task_id: i64, idle_secs: i64)
        requires
            i64::MIN <= get_or(old(self).base_elapsed@, task_id, 0) + idle_secs <= i64::MAX,
        ensures
            exists|t: i64| #[trigger] old(self).resumed(final(self), task_id, idle_secs, t),
            final(self).base_elapsed@ == old(self).base_elapsed@.insert(
                task_id,
                (get_or(old(self).base_elapsed@, task_id, 0) + idle_secs) as i64,
            ),
            final(self).running_task_id == Some(task_id),
    {
        let t = now();
        self.resume_with_idle_time_at(task_id, idle_secs, t)
    }

    /// What stopping the timer locally at `now` reports: the task, when its
    /// timer started, and the run's seconds with the clock protections.
    pub open spec fn stop_info(&self, now: i64) -> Option<StopInfo> {
        match (self.running_task_id, self.timer_started_at) {
            (Some(id), Some(s)) => Some(
                StopInfo {
                    task_id: id,
                    started_at: s,
                    elapsed_secs: clamp_session(seconds_between(now as int, s as int)) as i64,
                },
            ),
            _ => None,
        }
    }

    /// What the periodic slot sync at `now` reports: nothing without a
    /// running session, nothing when no second passed since the last
    /// report, else the seconds since the last report.
    pub open spec fn slot_check(&self, now: i64) -> SlotCheck {
        match (self.running_task_id, self.session_started_at, self.last_slot_sync_at) {
            (Some(id), Some(ss), Some(ls)) => {
                let slot = seconds_between(now as int, ls as int);
                if slot <= 0 {
                    SlotCheck::NothingToSync
                } else {
                    SlotCheck::Send(
                        SlotSync {
                            task_id: id,
                            slot_seconds: slot as i64,
                            session_start: ss,
                            slot_end: now,
                            is_final: false,
                        },
                    )
                }
            },
            _ => SlotCheck::NotRunning,
        }
    }

    /// The slot that a midnight reset at `now` reports for the running
    /// timer: the seconds since the last report (or, without one, the
    /// task's total), when there are any.
    pub open spec fn midnight_slot(&self, now: i64) -> Option<SlotSync> {
        match self.running_task_id {
            Some(id) => {
                let slot = match self.last_slot_sync_at {
                    Some(ls) => non_negative(seconds_between(now as int, ls as int)),
                    None => self.total_elapsed(id, now),
                };
                if slot > 0 {
                    Some(
                        SlotSync {
                            task_id: id,
                            slot_seconds: slot as i64,
                            session_start: match (
                                self.session_started_at,
                                self.timer_started_at,
                            ) {
                                (Some(ss), _) => ss,
                                (None, Some(ts)) => ts,
                                (None, None) => now,
                            },
                            slot_end: now,
                            is_final: true,
                        },
                    )
                } else {
                    None
                }
            },
            None => None,
        }
    }

    /// Check at `now` whether the local day `today` differs from the
    /// tracking day. If it does, the running timer (if any) is stopped with
    /// its final slot returned for syncing, all elapsed times are cleared
    /// and `today` becomes the tracking day.
    pub fn check_midnight_reset_at(&mut self, today: i32, now: i64) -> (reset: Option<
        MidnightReset,
    >)
        ensures
            old(self).midnight_checked(final(self), today, now, reset),
    {
        if today == self.current_day {
            return None;
        }
        let mut sync = None;
        if let Some(task_id) = self.running_task_id {
            let slot_seconds = match self.last_slot_sync_at {
                Some(last_sync) => {
                    let s = whole_seconds_between(now, last_sync);
                    if s < 0 {
                        0
                    } else {
                        s
                    }
                },
                None => self.get_total_elapsed_at(task_id, now),
            };
            if slot_seconds > 0 {
                let session_start = match (self.session_started_at, self.timer_started_at) {
                    (Some(ss), _) => ss,
                    (None, Some(ts)) => ts,
                    (None, None) => now,
                };
                sync =
                Some(
                    SlotSync {
                        task_id,
                        slot_seconds,
                        session_start,
                        slot_end: now,
                        is_final: true,
                    },
                );
            }
            self.running_task_id = None;
            self.timer_started_at = None;
            self.session_started_at = None;
            self.last_slot_sync_at = None;
            self.last_task_id = Some(task_id);
        }
        self.base_elapsed.clear();
        self.last_synced_elapsed.clear();
        self.current_day = today;
        Some(MidnightReset { sync })
    }

    /// Check if midnight has passed and reset timers if so (see
    /// `check_midnight_reset_at`).
    pub fn check_midnight_reset(&mut self) -> (reset: Option<MidnightReset>)
        ensures
            exists|today: i32, t: i64| #[trigger] old(self).midnight_checked(final(self), today, t, reset),
            reset is Some ==> {
                &&& final(self).base_elapsed@ == Map::<i64, i64>::empty()
                &&& final(self).running_task_id is None
            },
            reset is None ==> *final(self) == *old(self),
    {
        let t = now();
        let today = local_day_of(t);
        self.check_midnight_reset_at(today, t)
    }

    /// The event that a midnight reset reports: what was synced, and the new
    /// tracking day as `YYYY-MM-DD` (its day number, for a day out of the
    /// calendar's range).
    pub fn midnight_event(&self, info: MidnightResetInfo) -> (e: MidnightResetEvent)
        ensures
            e.synced_task_id == info.synced_task_id,
            e.synced_elapsed == info.synced_elapsed,
            e.new_date@ == match date_text(self.day()) {
                Some(t) => t,
                None => int_text(self.day() as int),
            },
    {
        let new_date = match day_date_text(self.current_day) {
            Some(t) => t,
            None => int_to_string(self.current_day as i64),
        };
        MidnightResetEvent {
            synced_task_id: info.synced_task_id,
            synced_elapsed: info.synced_elapsed,
            new_date,
        }
    }

    /// What the periodic slot sync at `now` has to report: nothing without
    /// a running session, nothing when no second passed since the last
    /// report, else the seconds since the last report.
    pub fn check_slot_at(&self, now: i64) -> (check: SlotCheck)
        ensures
            check == self.slot_check(now),
    {
        match (self.running_task_id, self.session_started_at, self.last_slot_sync_at) {
            (Some(task_id), Some(session_start), Some(last_slot_sync)) => {
                let slot_seconds = whole_seconds_between(now, last_slot_sync);
                if slot_seconds <= 0 {
                    SlotCheck::NothingToSync
                } else {
                    SlotCheck::Send(
                        SlotSync {
                            task_id,
                            slot_seconds,
                            session_start,
                            slot_end: now,
                            is_final: false,
                        },
                    )
                }
            },
            _ => SlotCheck::NotRunning,
        }
    }

    /// What the periodic slot sync has to report now (see `check_slot_at`).
    pub fn sync_slot(&self) -> (check: SlotCheck)
        ensures
            exists|t: i64| check == #[trigger] self.slot_check(t),
            (self.running_task_id is None || self.session_started_at is None
                || self.last_slot_sync_at is None) <==> check == SlotCheck::NotRunning,
    {
        let t = now();
        self.check_slot_at(t)
    }

    /// Records at `now` that the backend confirmed `sync`: the next slot
    /// starts at its end, and the task's total at `now` is what was synced.
    pub fn slot_synced_at(&mut self, sync: &SlotSync, now: i64)
        ensures
            final(self).last_slot_sync_at == Some(sync.slot_end),
            final(self).last_synced_elapsed@ == old(self).last_synced_elapsed@.insert(
                sync.task_id,
                old(self).total_elapsed(sync.task_id, now) as i64,
            ),
            final(self).same_cache(old(self)),
            final(self).base_elapsed@ == old(self).base_elapsed@,
            final(self).running_task_id == old(self).running_task_id,
            final(self).session_started_at == old(self).session_started_at,
            final(self).timer_started_at == old(self).timer_started_at,
            final(self).last_task_id == old(self).last_task_id,
    {
        self.last_slot_sync_at = Some(sync.slot_end);
        let total = self.get_total_elapsed_at(sync.task_id, now);
        self.last_synced_elapsed.insert(sync.task_id, total);
    }

    /// Records that the backend confirmed `sync` (see `slot_synced_at`).
    pub fn slot_synced(&mut self, sync: &SlotSync)
        ensures
            final(self).last_slot_sync_at == Some(sync.slot_end),
            exists|t: i64|
                final(self).last_synced_elapsed@ == old(self).last_synced_elapsed@.insert(
                    sync.task_id,
                    #[trigger] old(self).total_elapsed(sync.task_id, t) as i64,
                ),
            final(self).same_cache(old(self)),
            final(self).base_elapsed@ == old(self).base_elapsed@,
            final(self).running_task_id == old(self).running_task_id,
            final(self).session_started_at == old(self).session_started_at,
            final(self).timer_started_at == old(self).timer_started_at,
            final(self).last_task_id == old(self).last_task_id,
    {
        let t = now();
        self.slot_synced_at(sync, t)
    }

    /// The timer status at `now`: whether and which task runs, and the
    /// current entry's seconds with the clock protections.
    pub fn status_at(&self, now: i64) -> (status: TimerStatus)
        ensures
            status.running == self.running_task_id is Some,
            status.active_task_id == self.running_task_id,
            status.current_entry_elapsed == (match self.timer_started_at {
                Some(s) => clamp_session(seconds_between(now as int, s as int)),
                None => 0,
            }),
    {
        TimerStatus {
            running: self.running_task_id.is_some(),
            active_task_id: self.running_task_id,
            current_entry_elapsed: match self.timer_started_at {
                Some(started) => clamp_elapsed(whole_seconds_between(now, started)),
                None => 0,
            },
        }
    }

    /// A task of a project's task list merged at `now` with the local timer:
    /// its running flag, and its elapsed time from the base map (or, when it
    /// runs without a base, its listed time) plus the live interval.
    pub open spec fn merged(&self, t: Task, now: i64) -> Task {
        let running = self.running_task_id == Some(t.id);
        let live = if running {
            self.live_secs(now)
        } else {
            0
        };
        if self.base_elapsed@.contains_key(t.id) {
            Task {
                running,
                elapsed_secs: cap_total(self.base_elapsed@[t.id] + live) as i64,
                ..t
            }
        } else if running {
            Task { running, elapsed_secs: cap_total(t.elapsed_secs + live) as i64, ..t }
        } else {
            Task { running, ..t }
        }
    }

    /// Merges a project's task list (fetched from the API) with the local
    /// timer state at `now`.
    pub fn merge_project_tasks_at(&self, tasks: Vec<Task>, now: i64) -> (out: Vec<Task>)
        ensures
            out@ == tasks@.map_values(|t: Task| self.merged(t, now)),
    {
        let live_elapsed = self.live_at(now);
        let mut out: Vec<Task> = Vec::new();
        let n = tasks.len();
        for i in 0..n
            invariant
                n == tasks@.len(),
                live_elapsed == self.live_secs(now),
                out@ == tasks@.take(i as int).map_values(|t: Task| self.merged(t, now)),
        {
            let mut task = tasks[i].copy();
            let is_running = self.running_task_id == Some(task.id);
            task.running = is_running;
            match self.base_elapsed.get(&task.id) {
                Some(base) => {
                    task.elapsed_secs = add_capped(*base, if is_running { live_elapsed } else { 0 });
                },
                None => {
                    if is_running {
                        task.elapsed_secs = add_capped(task.elapsed_secs, live_elapsed);
                    }
                },
            }
            out.push(task);
            assert(tasks@.take(i + 1) =~= tasks@.take(i as int).push(tasks@[i as int]));
        }
        assert(tasks@.take(n as int) =~= tasks@);
        out
    }

    /// Whether a timer is tracking time (`is_running`).
    pub fn is_tracking(&self) -> (r: bool)
        ensures
            r == self.running_task_id is Some,
    {
        self.running_task_id.is_some()
    }

    /// The task whose timer runs, if any.
    pub fn get_active_task(&self) -> (r: Option<i64>)
        ensures
            r == self.running_task_id,
    {
        self.running_task_id
    }

    /// Adds `elapsed_secs` to the running task's base; without a running
    /// task nothing changes.
    pub fn add_elapsed_time(&mut self, elapsed_secs: i64)
        requires
            old(self).running_task_id matches Some(id) ==> i64::MIN <= get_or(
                old(self).base_elapsed@,
                id,
                0,
            ) + elapsed_secs <= i64::MAX,
        ensures
            match old(self).running_task_id {
                Some(id) => final(self).base_elapsed@ == old(self).base_elapsed@.insert(
                    id,
                    (get_or(old(self).base_elapsed@, id, 0) + elapsed_secs) as i64,
                ),
                None => final(self).base_elapsed@ == old(self).base_elapsed@,
            },
            final(self).same_cache(old(self)),
            final(self).running_task_id == old(self).running_task_id,
            final(self).timer_started_at == old(self).timer_started_at,
            final(self).session_started_at == old(self).session_started_at,
            final(self).last_slot_sync_at == old(self).last_slot_sync_at,
            final(self).last_task_id == old(self).last_task_id,
            final(self).last_synced_elapsed@ == old(self).last_synced_elapsed@,
    {
        if let Some(task_id) = self.running_task_id {
            let base = self.base_of(task_id, 0);
            self.base_elapsed.insert(task_id, base + elapsed_secs);
        }
    }

    /// What the timestamp recorder stores for the running timer at `now`:
    /// the task and the whole seconds since its timer started, never
    /// negative.
    pub fn timestamp_sample_at(&self, now: i64) -> (r: Option<(i64, i64)>)
        ensures
            match self.running_task_id {
                Some(id) => r == Some(
                    (
                        id,
                        match self.timer_started_at {
                            Some(s) => non_negative(seconds_between(now as int, s as int)) as i64,
                            None => 0i64,
                        },
                    ),
                ),
                None => r is None,
            },
    {
        match self.running_task_id {
            Some(id) => {
                let elapsed = match self.timer_started_at {
                    Some(started) => {
                        let e = whole_seconds_between(now, started);
                        if e < 0 {
                            0
                        } else {
                            e
                        }
                    },
                    None => 0,
                };
                Some((id, elapsed))
            },
            None => None,
        }
    }

    /// The task that idle detection pauses: the running task with its cached
    /// name, or "Task {id}" when it is not cached.
    pub fn running_task_label(&self) -> (label: Option<(i64, String)>)
        ensures
            label is Some <==> self.running_task_id is Some,
            label matches Some(l) ==> Some(l.0) == self.running_task_id && l.1@ == self.label_name(
                l.0,
            ),
    {
        match self.running_task_id {
            Some(id) => {
                let n = self.cached_tasks.len();
                let mut i: usize = 0;
                assert(self.cached_tasks@.skip(0) =~= self.cached_tasks@);
                while i < n
                    invariant
                        n == self.cached_tasks@.len(),
                        0 <= i <= n,
                        self.running_task_id == Some(id),
                        find_task(self.cached_tasks@, id) == find_task(
                            self.cached_tasks@.skip(i as int),
                            id,
                        ),
                    decreases n - i,
                {
                    assert(self.cached_tasks@.skip(i as int)[0] == self.cached_tasks@[i as int]);
                    if self.cached_tasks[i].id == id {
                        assert(find_task(self.cached_tasks@.skip(i as int), id) == Some(
                            self.cached_tasks@[i as int],
                        ));
                        let name = self.cached_tasks[i].name.clone();
                        assert(name@ == self.cached_tasks@[i as int].name@);
                        assert(find_task(self.cached_tasks@, id) == Some(self.cached_tasks@[i as int]));
                        return Some((id, name));
                    }
                    assert(self.cached_tasks@.skip(i as int).drop_first() =~= self.cached_tasks@.skip(
                        i + 1,
                    ));
                    i = i + 1;
                }
                let mut name = String::from_str("Task ");
                push_int_text(&mut name, id);
                Some((id, name))
            },
            None => None,
        }
    }
}

/// A live interval in seconds with the clock protections applied.
fn clamp_elapsed(e: i64) -> (r: i64)
    ensures
        r == clamp_session(e as int),
        0 <= r <= MAX_SESSION_SECS,
{
    if e < 0 {
        0
    } else if e > MAX_SESSION_SECS {
        MAX_SESSION_SECS
    } else {
        e
    }
}

/// `base + live` (saturating), capped at one year.
fn add_capped(base: i64, live: i64) -> (r: i64)
    requires
        0 <= live,
    ensures
        r == cap_total(base + live),
{
    if base > MAX_TOTAL_ELAPSED_SECS - live {
        MAX_TOTAL_ELAPSED_SECS
    } else {
        base + live
    }
}

/// A live interval counts between zero and 24 hours, whatever the clock did.
pub proof fn law_live_interval_bounded(s: &TimerStateInner, now: i64)
    ensures
        0 <= s.live_secs(now) <= MAX_SESSION_SECS,
{
}

/// A task's total is never above one year, and never negative when its base
/// is not.
pub proof fn law_total_bounded(s: &TimerStateInner, task_id: i64, now: i64)
    ensures
        s.total_elapsed(task_id, now) <= MAX_TOTAL_ELAPSED_SECS,
        get_or(s.base_elapsed@, task_id, 0) >= 0 ==> s.total_elapsed(task_id, now) >= 0,
{
}

/// Starting a task that was not running and later stopping it adds the
/// run's whole seconds (with the clock protections) to the task's base, ends
/// the run, and reports the seconds since the start as the final slot.
pub proof fn law_start_then_stop(
    s0: &TimerStateInner,
    s1: &TimerStateInner,
    s2: &TimerStateInner,
    task_id: i64,
    t0: i64,
    t1: i64,
)
    requires
        s0.running_task_id != Some(task_id),
        s0.started(s1, task_id, t0),
        s1.stopped(s2, t1),
    ensures
        s2.base_elapsed@[task_id] == cap_total(
            get_or(s1.base_elapsed@, task_id, 0) + clamp_session(
                seconds_between(t1 as int, t0 as int),
            ),
        ),
        s2.running_task_id is None,
        s2.timer_started_at is None,
        s2.last_task_id == Some(task_id),
        s1.final_slot(t1) == (if seconds_between(t1 as int, t0 as int) > 0 {
            Some(
                SlotSync {
                    task_id,
                    slot_seconds: seconds_between(t1 as int, t0 as int) as i64,
                    session_start: t0,
                    slot_end: t1,
                    is_final: true,
                },
            )
        } else {
            None
        }),
{
}

/// Time counts exactly: `k` whole seconds (up to 24 hours) after a task is
/// started, its total is its base plus `k`.
pub proof fn law_running_total_exact(
    s0: &TimerStateInner,
    s1: &TimerStateInner,
    task_id: i64,
    t0: i64,
    k: i64,
)
    requires
        s0.running_task_id != Some(task_id),
        s0.started(s1, task_id, t0),
        0 <= k <= MAX_SESSION_SECS,
        t0 + k * NANOS_PER_SEC <= i64::MAX,
    ensures
        s1.total_elapsed(task_id, (t0 + k * NANOS_PER_SEC) as i64) == cap_total(
            get_or(s1.base_elapsed@, task_id, 0) + k,
        ),
{
    let later = t0 + k * NANOS_PER_SEC;
    assert((k * NANOS_PER_SEC) / (NANOS_PER_SEC as int) == k) by (nonlinear_arith)
        requires
            0 <= k,
    ;
    assert(seconds_between(later, t0 as int) == k);
}

/// A midnight reset happens once per day: a second check on the same local
/// day reports nothing and changes nothing.
pub proof fn law_midnight_reset_once_per_day(
    s0: &TimerStateInner,
    s1: &TimerStateInner,
    s2: &TimerStateInner,
    today: i32,
    n0: i64,
    n1: i64,
    r0: Option<MidnightReset>,
    r1: Option<MidnightReset>,
)
    requires
        s0.midnight_checked(s1, today, n0, r0),
        s1.midnight_checked(s2, today, n1, r1),
    ensures
        s1.day() == today,
        r1 is None,
        *s2 == *s1,
        r0 is Some ==> s1.base_elapsed@ == Map::<i64, i64>::empty() && s1.running_task_id is None,
{
}

/// The task list shows a task that has a base exactly as
/// `get_total_elapsed` computes its total.
pub proof fn law_listed_matches_total(s: &TimerStateInner, now: i64, i: int)
    requires
        0 <= i < s.cached_tasks@.len(),
        s.base_elapsed@.contains_key(s.cached_tasks@[i].id),
    ensures
        s.listed_tasks(now)[i].elapsed_secs == s.total_elapsed(s.cached_tasks@[i].id, now),
        s.listed_tasks(now)[i].running == (s.running_task_id == Some(s.cached_tasks@[i].id)),
{
}

/// After a sync confirmation the task's total is exactly what was synced:
/// the live interval restarts from zero.
pub proof fn law_synced_total(
    s0: &TimerStateInner,
    s1: &TimerStateInner,
    task_id: i64,
    synced_elapsed: i64,
    now: i64,
)
    requires
        s0.marked_synced(s1, task_id, synced_elapsed, now),
        synced_elapsed <= MAX_TOTAL_ELAPSED_SECS,
    ensures
        s1.total_elapsed(task_id, now) == synced_elapsed,
{
    assert(seconds_between(now as int, now as int) == 0);
}

/// Starting and stopping a timer adds nothing but the task's own entry: the
/// task list, the synced totals and the other tasks' bases stay as they
/// were, so repeated start/stop cycles do not grow the state.
pub proof fn law_start_stop_adds_only_the_task(
    s0: &TimerStateInner,
    s1: &TimerStateInner,
    s2: &TimerStateInner,
    task_id: i64,
    t0: i64,
    t1: i64,
)
    requires
        s0.running_task_id is None,
        s0.started(s1, task_id, t0),
        s1.stopped(s2, t1),
    ensures
        s2.base_elapsed@.dom() == s0.base_elapsed@.dom().insert(task_id),
        forall|k: i64| k != task_id && #[trigger] s0.base_elapsed@.contains_key(k) ==> s2.base_elapsed@[k]
            == s0.base_elapsed@[k],
        s2.cached_tasks@ == s0.cached_tasks@,
        s2.last_synced_elapsed@ == s0.last_synced_elapsed@,
        s2.running_task_id is None,
{
    assert(s2.base_elapsed@.dom() =~= s0.base_elapsed@.dom().insert(task_id));
}

/// After an idle period that paused a task, keeping the idle time and
/// discarding it both restart the task at the same instant; they differ by
/// exactly the idle seconds, which keeping adds to the task's total.
pub proof fn law_keep_and_discard_differ_by_idle_time(
    s0: &TimerStateInner,
    kept: &TimerStateInner,
    discarded: &TimerStateInner,
    task_id: i64,
    idle_secs: i64,
    now: i64,
    later: i64,
)
    requires
        s0.running_task_id != Some(task_id),
        i64::MIN <= get_or(s0.base_elapsed@, task_id, 0) + idle_secs <= i64::MAX,
        s0.resumed(kept, task_id, idle_secs, now),
        s0.started(discarded, task_id, now),
    ensures
        kept.running_task_id == Some(task_id),
        discarded.running_task_id == Some(task_id),
        kept.live_secs(later) == discarded.live_secs(later),
        discarded.total_elapsed(task_id, later) == cap_total(
            get_or(s0.base_elapsed@, task_id, 0) + discarded.live_secs(later),
        ),
        kept.total_elapsed(task_id, later) == cap_total(
            get_or(s0.base_elapsed@, task_id, 0) + idle_secs + discarded.live_secs(later),
        ),
{
}

/// A project's task that has a stored base shows, merged with the timer at
/// `now`, exactly the timer's total for that task at `now`: its base plus
/// the live interval when it runs (with the clock protections and the cap).
/// It is marked running exactly when the timer runs it, and keeps its other
/// fields.
pub proof fn law_merged_task_shows_its_total(s: &TimerStateInner, t: Task, now: i64)
    requires
        s.base_elapsed@.contains_key(t.id),
    ensures
        s.merged(t, now).elapsed_secs == s.total_elapsed(t.id, now),
        s.merged(t, now).running == (s.running_task_id == Some(t.id)),
        s.merged(t, now).id == t.id,
        s.merged(t, now).name == t.name,
        s.merged(t, now).project_id == t.project_id,
{
    law_live_interval_bounded(s, now);
}

/// After a refresh with the fetched tasks `ts` while `running` runs, each
/// fetched task other than the running one has as its base the elapsed
/// time fetched last for its id; the running task's base, and the base of
/// every task that was not fetched, is as it was.
pub proof fn law_refresh_takes_fetched_elapsed(base: Map<i64, i64>, ts: Seq<Task>, running: Option<i64>)
    ensures
        forall|j: int|
            0 <= j < ts.len() && running != Some((#[trigger] ts[j]).id) && (forall|k: int|
                j < k < ts.len() ==> ts[k].id != ts[j].id) ==> base_after_refresh(
                base,
                ts,
                running,
            ).contains_key(ts[j].id) && base_after_refresh(base, ts, running)[ts[j].id]
                == ts[j].elapsed_secs,
        forall|id: i64|
            (running == Some(id) || forall|j: int| 0 <= j < ts.len() ==> ts[j].id != id) ==> {
                &&& #[trigger] base_after_refresh(base, ts, running).contains_key(id)
                    == base.contains_key(id)
                &&& base.contains_key(id) ==> base_after_refresh(base, ts, running)[id] == base[id]
            },
    decreases ts.len(),
{
    if ts.len() > 0 {
        let d = ts.drop_last();
        law_refresh_takes_fetched_elapsed(base, d, running);
        let t = ts.last();
        let rd = base_after_refresh(base, d, running);
        let r = base_after_refresh(base, ts, running);
        assert forall|j: int|
            0 <= j < ts.len() && running != Some((#[trigger] ts[j]).id) && (forall|k: int|
                j < k < ts.len() ==> ts[k].id != ts[j].id) implies r.contains_key(ts[j].id)
            && r[ts[j].id] == ts[j].elapsed_secs by {
            if j < ts.len() - 1 {
                assert(ts[j] == d[j]);
                assert(ts[ts.len() - 1].id != ts[j].id);
                assert(forall|k: int| j < k < d.len() ==> d[k] == ts[k]);
            }
        }
        assert forall|id: i64|
            (running == Some(id) || forall|j: int| 0 <= j < ts.len() ==> ts[j].id != id) implies {
                &&& #[trigger] r.contains_key(id) == base.contains_key(id)
                &&& base.contains_key(id) ==> r[id] == base[id]
            } by {
            if running != Some(id) {
                assert(ts[ts.len() - 1].id != id);
                assert(forall|j: int| 0 <= j < d.len() ==> d[j] == ts[j]);
            }
            assert(rd.contains_key(id) == base.contains_key(id));
        }
    }
}

/// A successful refresh takes the fetched elapsed times: every fetched task
/// but the running one gets the elapsed time fetched last for its id as its
/// base, and is listed with it; the running task keeps its base.
pub proof fn law_refresh_records_fetched_times(
    s: &TimerStateInner,
    post: &TimerStateInner,
    token: Option<String>,
    fetched: Result<Vec<Task>, String>,
    now: i64,
)
    requires
        s.api_synced(post, token, fetched, now),
        token is Some,
        fetched is Ok,
        !(fetched->Ok_0@.len() == 0 && s.cached_tasks@.len() > 0),
    ensures
        ({
            let ts = fetched->Ok_0@;
            &&& forall|j: int|
                0 <= j < ts.len() && s.running_task_id != Some((#[trigger] ts[j]).id) && (forall|
                    k: int,
                | j < k < ts.len() ==> ts[k].id != ts[j].id) ==> {
                    &&& post.base_elapsed@.contains_key(ts[j].id)
                    &&& post.base_elapsed@[ts[j].id] == ts[j].elapsed_secs
                    &&& post.listed(post.cached_tasks@[j], now).id == ts[j].id
                    &&& post.listed(post.cached_tasks@[j], now).elapsed_secs == cap_total(
                        ts[j].elapsed_secs as int,
                    ) as i64
                }
            &&& forall|id: i64|
                s.running_task_id == Some(id) ==> (#[trigger] post.base_elapsed@.contains_key(id)
                    == s.base_elapsed@.contains_key(id) && (s.base_elapsed@.contains_key(id)
                    ==> post.base_elapsed@[id] == s.base_elapsed@[id]))
        }),
{
    let ts = fetched->Ok_0@;
    law_refresh_takes_fetched_elapsed(s.base_elapsed@, ts, s.running_task_id);
    assert forall|j: int|
        0 <= j < ts.len() && s.running_task_id != Some((#[trigger] ts[j]).id) && (forall|k: int|
            j < k < ts.len() ==> ts[k].id != ts[j].id) implies {
            &&& post.base_elapsed@.contains_key(ts[j].id)
            &&& post.base_elapsed@[ts[j].id] == ts[j].elapsed_secs
            &&& post.listed(post.cached_tasks@[j], now).id == ts[j].id
            &&& post.listed(post.cached_tasks@[j], now).elapsed_secs == cap_total(
                ts[j].elapsed_secs as int,
            ) as i64
        } by {
        assert(post.cached_tasks@[j] == cached_form(ts[j]));
    }
}

/// Every slot that the periodic sync reports carries the start of the
/// timer's session, whatever slots were confirmed before: after
/// `start_task_at(id, t0)` began a session (no timer ran `id` before), and
/// any number of confirmations (which keep the running task and the session
/// start and move the last report), a slot to send is `id`'s, starts its
/// session at `t0`, ends at `now`, and is not final.
pub proof fn law_slots_carry_session_start(
    s0: &TimerStateInner,
    s1: &TimerStateInner,
    s2: &TimerStateInner,
    id: i64,
    t0: i64,
    now: i64,
)
    requires
        s0.running_task_id != Some(id),
        s0.started(s1, id, t0),
        s2.running_task_id == s1.running_task_id,
        s2.session_started_at == s1.session_started_at,
        s2.last_slot_sync_at is Some,
    ensures
        s2.slot_check(now) matches SlotCheck::Send(slot) ==> {
            &&& slot.session_start == t0
            &&& slot.task_id == id
            &&& slot.slot_end == now
            &&& !slot.is_final
        },
        s2.slot_check(now) matches SlotCheck::Send(slot) ==> slot.slot_seconds
            == seconds_between(now as int, s2.last_slot_sync_at->Some_0 as int),
        s2.slot_check(now) is NotRunning ==> false,
{
}

} // verus!
