//! Idle detection decisions.
//!
//! A monitor polls the system every `POLL_INTERVAL_SECS` for how long the
//! user has been idle and whether the session is locked. When the user goes
//! idle (past the threshold, or locked) the running task is paused; when
//! the user comes back, an idle event reports how long they were away so
//! that the user can keep or discard that time. The polling itself (the
//! sleep and the queries to the desktop) is the caller's; each poll hands
//! its observations to the monitor here.

use vstd::prelude::*;

use crate::clock::{now, seconds_between, whole_seconds_between, NANOS_PER_SEC};
use crate::constants::{ACTIVE_THRESHOLD_SECS, POLL_INTERVAL_SECS};
use crate::models::{IdleEvent, Task};
use crate::timer_state::{non_negative, SlotSync, TimerStateInner};

verus! {

/// Tracks user activity statistics over time.
#[derive(Debug, Clone, Copy, PartialEq, Eq)]
pub struct ActivityTracker {
    pub active_secs: i64,
    pub idle_secs: i64,
    /// When the user was last seen active (nanoseconds since the epoch).
    pub last_activity_at: i64,
}

impl ActivityTracker {
    /// No activity recorded yet, as of `now`.
    pub fn new_at(now: i64) -> (t: Self)
        ensures
            t == (ActivityTracker { active_secs: 0, idle_secs: 0, last_activity_at: now }),
    {
        ActivityTracker { active_secs: 0, idle_secs: 0, last_activity_at: now }
    }

    /// No activity recorded yet.
    pub fn new() -> (t: Self)
        ensures
            t.active_secs == 0,
            t.idle_secs == 0,
    {
        Self::new_at(now())
    }

    /// Counts `secs` more active seconds, the user last seen at `now`.
    pub fn record_active_at(&mut self, secs: i64, now: i64)
        requires
            i64::MIN <= old(self).active_secs + secs <= i64::MAX,
        ensures
            *final(self) == (ActivityTracker {
                active_secs: (old(self).active_secs + secs) as i64,
                last_activity_at: now,
                ..*old(self)
            }),
    {
        self.active_secs = self.active_secs + secs;
        self.last_activity_at = now;
    }

    /// Counts `secs` more active seconds, the user last seen now.
    pub fn record_active(&mut self, secs: i64)
        requires
            i64::MIN <= old(self).active_secs + secs <= i64::MAX,
        ensures
            final(self).active_secs == old(self).active_secs + secs,
            final(self).idle_secs == old(self).idle_secs,
    {
        self.record_active_at(secs, now());
    }

    /// Counts `secs` more idle seconds.
    pub fn record_idle(&mut self, secs: i64)
        requires
            i64::MIN <= old(self).idle_secs + secs <= i64::MAX,
        ensures
            *final(self) == (ActivityTracker {
                idle_secs: (old(self).idle_secs + secs) as i64,
                ..*old(self)
            }),
    {
        self.idle_secs = self.idle_secs + secs;
    }

    /// Starts counting afresh at `now`.
    pub fn reset_at(&mut self, now: i64)
        ensures
            *final(self) == (ActivityTracker { active_secs: 0, idle_secs: 0, last_activity_at: now }),
    {
        self.active_secs = 0;
        self.idle_secs = 0;
        self.last_activity_at = now;
    }

    /// Starts counting afresh now.
    pub fn reset(&mut self)
        ensures
            final(self).active_secs == 0,
            final(self).idle_secs == 0,
    {
        self.reset_at(now());
    }

    /// The seconds counted in all, active or idle.
    pub fn total_secs(&self) -> (t: i64)
        requires
            i64::MIN <= self.active_secs + self.idle_secs <= i64::MAX,
        ensures
            t == self.active_secs + self.idle_secs,
    {
        self.active_secs + self.idle_secs
    }

    /// Counts one poll of the activity tracker service: the poll interval
    /// goes to idle time when the user was idle for `ACTIVE_THRESHOLD_SECS`
    /// or more, or the session is locked, and to active time otherwise.
    pub fn record_poll(&mut self, system_idle_secs: u64, is_locked: bool)
        requires
            (system_idle_secs >= ACTIVE_THRESHOLD_SECS || is_locked) ==> old(self).idle_secs
                <= i64::MAX - POLL_INTERVAL_SECS,
            !(system_idle_secs >= ACTIVE_THRESHOLD_SECS || is_locked) ==> old(self).active_secs
                <= i64::MAX - POLL_INTERVAL_SECS,
        ensures
            (system_idle_secs >= ACTIVE_THRESHOLD_SECS || is_locked) ==> *final(self) == (
            ActivityTracker { idle_secs: (old(self).idle_secs + POLL_INTERVAL_SECS) as i64, ..*old(self) }),
            !(system_idle_secs >= ACTIVE_THRESHOLD_SECS || is_locked) ==> *final(self) == (
            ActivityTracker {
                active_secs: (old(self).active_secs + POLL_INTERVAL_SECS) as i64,
                ..*old(self)
            }),
    {
        if system_idle_secs >= ACTIVE_THRESHOLD_SECS || is_locked {
            self.idle_secs = self.idle_secs + POLL_INTERVAL_SECS as i64;
        } else {
            self.active_secs = self.active_secs + POLL_INTERVAL_SECS as i64;
        }
    }
}

/// The user counts as active in a poll when the system saw input within
/// the last poll interval and the session is not locked.
pub open spec fn user_active(is_locked: bool, system_idle_secs: u64) -> bool {
    system_idle_secs < POLL_INTERVAL_SECS + 1 && !is_locked
}

/// The instant the idle period began: `system_idle_secs` before `now`.
pub open spec fn idle_start(now: i64, system_idle_secs: u64) -> int {
    now - system_idle_secs * NANOS_PER_SEC
}

/// The activity tracker after one poll at `now`: the poll interval counts
/// as idle while the monitor is idle, and as active otherwise, when an
/// active user is also seen at `now`.
pub open spec fn counted(a: ActivityTracker, was_idle: bool, active: bool, now: i64) -> ActivityTracker {
    if was_idle {
        ActivityTracker { idle_secs: (a.idle_secs + POLL_INTERVAL_SECS) as i64, ..a }
    } else {
        ActivityTracker {
            active_secs: (a.active_secs + POLL_INTERVAL_SECS) as i64,
            last_activity_at: if active {
                now
            } else {
                a.last_activity_at
            },
            ..a
        }
    }
}

/// Every poll counts its interval exactly once, as active or as idle time;
/// idle time grows only while the monitor is idle.
pub proof fn law_poll_counts_interval_once(a: ActivityTracker, was_idle: bool, active: bool, now: i64)
    requires
        !was_idle ==> a.active_secs <= i64::MAX - POLL_INTERVAL_SECS,
        was_idle ==> a.idle_secs <= i64::MAX - POLL_INTERVAL_SECS,
    ensures
        counted(a, was_idle, active, now).active_secs + counted(a, was_idle, active, now).idle_secs
            == a.active_secs + a.idle_secs + POLL_INTERVAL_SECS,
        counted(a, was_idle, active, now).idle_secs > a.idle_secs <==> was_idle,
{
}

/// An idle event as plain values: duration, task id, task name, and
/// whether tracking still runs.
pub open spec fn event_view(e: IdleEvent) -> (i64, i64, Seq<char>, bool) {
    (e.idle_duration_secs, e.task_id, e.task_name@, e.tracking_active)
}

/// The idle monitor of the timer process: whether the user is idle, since
/// when, and which task it paused.
#[derive(Debug)]
pub struct IdleMonitor {
    pub is_idle: bool,
    pub idle_started_at: Option<i64>,
    pub paused_task_id: Option<i64>,
    pub paused_task_name: Option<String>,
}

/// What one poll of the idle monitor produced.
#[derive(Debug)]
pub struct IdlePoll {
    /// The user came back from an idle period that paused a task.
    pub event: Option<IdleEvent>,
    /// The idle period paused the running task: its final slot, if it has
    /// time to report to the backend.
    pub stop_sync: Option<SlotSync>,
}

/// The idle monitor as plain values.
pub struct MonitorView {
    pub is_idle: bool,
    pub idle_started_at: Option<i64>,
    pub paused_task_id: Option<i64>,
    pub paused_task_name: Option<Seq<char>>,
}

/// The monitor's state as plain values.
pub open spec fn monitor_view(m: &IdleMonitor) -> MonitorView {
    MonitorView {
        is_idle: m.is_idle,
        idle_started_at: m.idle_started_at,
        paused_task_id: m.paused_task_id,
        paused_task_name: match m.paused_task_name {
            Some(n) => Some(n@),
            None => None,
        },
    }
}

/// The task that a poll would pause: the running task with the name idle
/// detection reports for it.
pub open spec fn running_label(t: &TimerStateInner) -> Option<(i64, Seq<char>)> {
    match t.running_task_id {
        Some(id) => Some((id, t.label_name(id))),
        None => None,
    }
}

/// What one poll observes: whether the session is locked, the seconds since
/// the last input, the instant of the poll, and the task that runs then.
pub struct PollInput {
    pub is_locked: bool,
    pub system_idle_secs: u64,
    pub now: i64,
    pub running: Option<(i64, Seq<char>)>,
}

/// Whether a poll that sees `p` begins an idle period of a monitor in
/// state `m`: the user is inactive past `threshold` (or locked) and the
/// monitor is not idle yet.
pub open spec fn begins_idle(m: MonitorView, p: PollInput, threshold: u64) -> bool {
    !user_active(p.is_locked, p.system_idle_secs) && !m.is_idle && (p.system_idle_secs
        >= threshold || p.is_locked)
}

/// Whether that poll stops the running timer: it begins an idle period
/// while a task runs.
pub open spec fn poll_stops(m: MonitorView, p: PollInput, threshold: u64) -> bool {
    begins_idle(m, p, threshold) && p.running is Some
}

/// The idle event a monitor in state `m` reports for a user who comes back
/// at `now`, when a task was paused.
pub open spec fn returned_event(m: MonitorView, now: i64) -> Option<(i64, i64, Seq<char>, bool)> {
    match (m.paused_task_id, m.paused_task_name) {
        (Some(id), Some(name)) => Some(
            (
                match m.idle_started_at {
                    Some(s) => seconds_between(now as int, s as int) as i64,
                    None => 0i64,
                },
                id,
                name,
                false,
            ),
        ),
        _ => None,
    }
}

/// The idle event of a poll: only a poll that ends an idle period (the user
/// is active again) reports one.
pub open spec fn poll_event(m: MonitorView, p: PollInput) -> Option<(i64, i64, Seq<char>, bool)> {
    if user_active(p.is_locked, p.system_idle_secs) && m.is_idle {
        returned_event(m, p.now)
    } else {
        None
    }
}

/// The monitor after a poll.
pub open spec fn monitor_step(m: MonitorView, p: PollInput, threshold: u64) -> MonitorView {
    if user_active(p.is_locked, p.system_idle_secs) && m.is_idle {
        MonitorView {
            is_idle: false,
            idle_started_at: None,
            paused_task_id: None,
            paused_task_name: None,
        }
    } else if begins_idle(m, p, threshold) {
        MonitorView {
            is_idle: true,
            idle_started_at: Some(idle_start(p.now, p.system_idle_secs) as i64),
            paused_task_id: match p.running {
                Some((id, _)) => Some(id),
                None => m.paused_task_id,
            },
            paused_task_name: match p.running {
                Some((_, n)) => Some(n),
                None => m.paused_task_name,
            },
        }
    } else {
        m
    }
}

/// The monitor after the polls `ps`, in order.
pub open spec fn after_polls(m: MonitorView, ps: Seq<PollInput>, threshold: u64) -> MonitorView
    decreases ps.len(),
{
    if ps.len() == 0 {
        m
    } else {
        monitor_step(after_polls(m, ps.drop_last(), threshold), ps.last(), threshold)
    }
}

/// How many of the polls `ps` stop the running timer.
pub open spec fn stops_in(m: MonitorView, ps: Seq<PollInput>, threshold: u64) -> nat
    decreases ps.len(),
{
    if ps.len() == 0 {
        0
    } else {
        stops_in(m, ps.drop_last(), threshold) + if poll_stops(
            after_polls(m, ps.drop_last(), threshold),
            ps.last(),
            threshold,
        ) {
            1nat
        } else {
            0nat
        }
    }
}

/// The idle event of the poll numbered `i` of `ps`.
pub open spec fn event_at(m: MonitorView, ps: Seq<PollInput>, threshold: u64, i: int) -> Option<
    (i64, i64, Seq<char>, bool),
> {
    poll_event(after_polls(m, ps.take(i), threshold), ps[i])
}

/// An idle period, polled: a monitor that is not idle and has paused
/// nothing sees a user go idle past the threshold (or locked) at the first
/// poll, sees them inactive at every poll after it, and sees them active
/// again at the last. Then the timer is stopped exactly once, at the first
/// poll, when a task ran then, and never when none ran; no poll but the
/// last reports an idle event; and the last reports the task that ran at
/// the first poll (its id and name), the whole seconds since the user's
/// last input, and that tracking is stopped (none when no task ran).
pub proof fn law_idle_period_stops_once(m: MonitorView, ps: Seq<PollInput>, threshold: u64)
    requires
        !m.is_idle,
        m.paused_task_id is None,
        m.paused_task_name is None,
        ps.len() >= 2,
        begins_idle(m, ps[0], threshold),
        idle_start(ps[0].now, ps[0].system_idle_secs) >= i64::MIN,
        forall|i: int| 0 < i < ps.len() - 1 ==> !user_active(ps[i].is_locked, ps[i].system_idle_secs),
        user_active(ps.last().is_locked, ps.last().system_idle_secs),
    ensures
        stops_in(m, ps, threshold) == if ps[0].running is Some {
            1nat
        } else {
            0nat
        },
        forall|i: int| 0 <= i < ps.len() - 1 ==> #[trigger] event_at(m, ps, threshold, i) is None,
        event_at(m, ps, threshold, ps.len() - 1) == match ps[0].running {
            Some((id, name)) => Some(
                (
                    seconds_between(
                        ps.last().now as int,
                        idle_start(ps[0].now, ps[0].system_idle_secs),
                    ) as i64,
                    id,
                    name,
                    false,
                ),
            ),
            None => None,
        },
        !after_polls(m, ps, threshold).is_idle,
{
    let n = ps.len() as int;
    let s1 = monitor_step(m, ps[0], threshold);
    lemma_first_poll(m, ps, threshold);
    assert(stops_in(m, ps.take(1), threshold) == if ps[0].running is Some {
        1nat
    } else {
        0nat
    });
    assert(event_at(m, ps, threshold, 0) is None);
    lemma_idle_polls_change_nothing(m, ps, threshold, n - 1);
    assert forall|i: int| 0 <= i < n - 1 implies #[trigger] event_at(m, ps, threshold, i)
        is None by {
        if i > 0 {
            lemma_idle_polls_change_nothing(m, ps, threshold, i);
        }
    }
    assert(ps.drop_last() =~= ps.take(n - 1));
    assert(ps.take(n) =~= ps);
}

/// While the user stays inactive after the poll that began the idle
/// period, the polls change nothing: the monitor stays as that poll left
/// it and stops nothing more.
proof fn lemma_idle_polls_change_nothing(m: MonitorView, ps: Seq<PollInput>, threshold: u64, k: int)
    requires
        !m.is_idle,
        ps.len() >= 2,
        1 <= k <= ps.len() - 1,
        begins_idle(m, ps[0], threshold),
        forall|i: int| 0 < i < ps.len() - 1 ==> !user_active(ps[i].is_locked, ps[i].system_idle_secs),
    ensures
        after_polls(m, ps.take(k), threshold) == monitor_step(m, ps[0], threshold),
        stops_in(m, ps.take(k), threshold) == stops_in(m, ps.take(1), threshold),
    decreases k,
{
    if k > 1 {
        lemma_idle_polls_change_nothing(m, ps, threshold, k - 1);
        let s1 = monitor_step(m, ps[0], threshold);
        assert(ps.take(k).drop_last() =~= ps.take(k - 1));
        assert(ps.take(k).last() == ps[k - 1]);
        assert(after_polls(m, ps.take(k), threshold) == monitor_step(
            after_polls(m, ps.take(k - 1), threshold),
            ps[k - 1],
            threshold,
        ));
        assert(s1.is_idle);
        assert(!user_active(ps[k - 1].is_locked, ps[k - 1].system_idle_secs));
        assert(monitor_step(s1, ps[k - 1], threshold) == s1);
        assert(!poll_stops(s1, ps[k - 1], threshold));
    } else {
        lemma_first_poll(m, ps, threshold);
    }
}

/// The monitor and the stops after the first poll.
proof fn lemma_first_poll(m: MonitorView, ps: Seq<PollInput>, threshold: u64)
    requires
        ps.len() >= 1,
    ensures
        after_polls(m, ps.take(1), threshold) == monitor_step(m, ps[0], threshold),
        stops_in(m, ps.take(1), threshold) == if poll_stops(m, ps[0], threshold) {
            1nat
        } else {
            0nat
        },
{
    let t1 = ps.take(1);
    assert(t1.drop_last() =~= Seq::<PollInput>::empty());
    assert(t1.last() == ps[0]);
    assert(after_polls(m, Seq::<PollInput>::empty(), threshold) == m);
    assert(stops_in(m, Seq::<PollInput>::empty(), threshold) == 0);
}

impl IdleMonitor {
    /// A monitor that has seen no idle period.
    pub fn new() -> (m: Self)
        ensures
            !m.is_idle,
            m.idle_started_at is None,
            m.paused_task_id is None,
            m.paused_task_name is None,
    {
        IdleMonitor {
            is_idle: false,
            idle_started_at: None,
            paused_task_id: None,
            paused_task_name: None,
        }
    }

    /// The idle event for a user who comes back at `now`: when a task was
    /// paused, its id and name and the whole seconds since the idle period
    /// began (zero when that is unknown).
    pub open spec fn return_event(&self, now: i64) -> Option<(i64, i64, Seq<char>, bool)> {
        returned_event(monitor_view(self), now)
    }

    /// Handles one poll at `now`: `is_locked` and `system_idle_secs` are
    /// what the desktop reported. The activity tracker counts the poll
    /// interval as idle while the monitor is idle and as active otherwise.
    /// A user who is active again ends the idle period and, if a task was
    /// paused, produces the idle event. A user idle past
    /// `idle_threshold_secs` (or locked) starts an idle period that stops
    /// the running task.
    pub fn poll_at(
        &mut self,
        activity: &mut ActivityTracker,
        timer: &mut TimerStateInner,
        is_locked: bool,
        system_idle_secs: u64,
        idle_threshold_secs: u64,
        now: i64,
    ) -> (r: IdlePoll)
        requires
            !old(self).is_idle ==> old(activity).active_secs <= i64::MAX - POLL_INTERVAL_SECS,
            old(self).is_idle ==> old(activity).idle_secs <= i64::MAX - POLL_INTERVAL_SECS,
            !user_active(is_locked, system_idle_secs) && !old(self).is_idle && (system_idle_secs
                >= idle_threshold_secs || is_locked) ==> idle_start(now, system_idle_secs)
                >= i64::MIN,
        ensures
            ({
                let p = PollInput {
                    is_locked,
                    system_idle_secs,
                    now,
                    running: running_label(&*old(timer)),
                };
                &&& monitor_view(&*final(self)) == monitor_step(
                    monitor_view(&*old(self)),
                    p,
                    idle_threshold_secs,
                )
                &&& match r.event {
                    Some(e) => poll_event(monitor_view(&*old(self)), p) == Some(event_view(e)),
                    None => poll_event(monitor_view(&*old(self)), p) is None,
                }
                &&& poll_stops(monitor_view(&*old(self)), p, idle_threshold_secs) ==> old(
                    timer,
                ).stopped(&*final(timer), now)
                &&& !poll_stops(monitor_view(&*old(self)), p, idle_threshold_secs) ==> *final(timer)
                    == *old(timer)
            }),
            *final(activity) == counted(
                *old(activity),
                old(self).is_idle,
                user_active(is_locked, system_idle_secs),
                now,
            ),
            user_active(is_locked, system_idle_secs) && old(self).is_idle ==> {
                &&& !final(self).is_idle
                &&& final(self).idle_started_at is None
                &&& final(self).paused_task_id is None
                &&& final(self).paused_task_name is None
                &&& *final(timer) == *old(timer)
                &&& r.stop_sync is None
                &&& match old(self).return_event(now) {
                    Some(ev) => r.event matches Some(e) && event_view(e) == ev,
                    None => r.event is None,
                }
            },
            !user_active(is_locked, system_idle_secs) && !old(self).is_idle && (system_idle_secs
                >= idle_threshold_secs || is_locked) ==> {
                &&& final(self).is_idle
                &&& final(self).idle_started_at == Some(idle_start(now, system_idle_secs) as i64)
                &&& r.event is None
                &&& match old(timer).running_task_id {
                    Some(id) => {
                        &&& final(self).paused_task_id == Some(id)
                        &&& final(self).paused_task_name matches Some(n) && n@ == old(
                            timer,
                        ).label_name(id)
                        &&& old(timer).stopped(&*final(timer), now)
                        &&& r.stop_sync == old(timer).final_slot(now)
                    },
                    None => {
                        &&& final(self).paused_task_id == old(self).paused_task_id
                        &&& final(self).paused_task_name == old(self).paused_task_name
                        &&& *final(timer) == *old(timer)
                        &&& r.stop_sync is None
                    },
                }
            },
            !(user_active(is_locked, system_idle_secs) && old(self).is_idle) && !(!user_active(
                is_locked,
                system_idle_secs,
            ) && !old(self).is_idle && (system_idle_secs >= idle_threshold_secs || is_locked)) ==> {
                &&& final(self).is_idle == old(self).is_idle
                &&& final(self).idle_started_at == old(self).idle_started_at
                &&& final(self).paused_task_id == old(self).paused_task_id
                &&& final(self).paused_task_name == old(self).paused_task_name
                &&& *final(timer) == *old(timer)
                &&& r.event is None
                &&& r.stop_sync is None
            },
    {
        let user_is_active = system_idle_secs < POLL_INTERVAL_SECS + 1 && !is_locked;
        if self.is_idle {
            activity.idle_secs = activity.idle_secs + POLL_INTERVAL_SECS as i64;
        } else {
            activity.active_secs = activity.active_secs + POLL_INTERVAL_SECS as i64;
            if user_is_active {
                activity.last_activity_at = now;
            }
        }
        if user_is_active {
            if self.is_idle {
                let idle_secs: i64 = match self.idle_started_at {
                    Some(start) => whole_seconds_between(now, start),
                    None => 0,
                };
                let event = match (self.paused_task_id, &self.paused_task_name) {
                    (Some(task_id), Some(task_name)) => Some(
                        IdleEvent {
                            idle_duration_secs: idle_secs,
                            task_id,
                            task_name: task_name.clone(),
                            tracking_active: false,
                        },
                    ),
                    _ => None,
                };
                self.is_idle = false;
                self.idle_started_at = None;
                self.paused_task_id = None;
                self.paused_task_name = None;
                return IdlePoll { event, stop_sync: None };
            }
            IdlePoll { event: None, stop_sync: None }
        } else if !self.is_idle && (system_idle_secs >= idle_threshold_secs || is_locked) {
            let started: i64 = (now as i128 - (system_idle_secs as i128) * (NANOS_PER_SEC as i128)) as i64;
            self.idle_started_at = Some(started);
            self.is_idle = true;
            match timer.running_task_label() {
                Some((task_id, task_name)) => {
                    let stop_sync = timer.stop_current_at(now);
                    self.paused_task_id = Some(task_id);
                    self.paused_task_name = Some(task_name);
                    IdlePoll { event: None, stop_sync }
                },
                None => IdlePoll { event: None, stop_sync: None },
            }
        } else {
            IdlePoll { event: None, stop_sync: None }
        }
    }
}

/// The idle event that ends an idle period reports the whole seconds since
/// the user's last input: at least the idle seconds seen when the period
/// began, plus the time since.
pub proof fn law_idle_event_counts_from_last_input(
    m: &IdleMonitor,
    id: i64,
    name: String,
    system_idle_secs: u64,
    detected: i64,
    returned: i64,
)
    requires
        m.paused_task_id == Some(id),
        m.paused_task_name == Some(name),
        idle_start(detected, system_idle_secs) >= i64::MIN,
        m.idle_started_at == Some(idle_start(detected, system_idle_secs) as i64),
        detected <= returned,
    ensures
        m.return_event(returned) matches Some(ev) && ev.1 == id && ev.2 == name@ && !ev.3 && ev.0
            == seconds_between(returned as int, idle_start(detected, system_idle_secs)) as i64,
        seconds_between(returned as int, idle_start(detected, system_idle_secs)) >= system_idle_secs,
{
    let x = returned - detected;
    assert((x + system_idle_secs * NANOS_PER_SEC) / (NANOS_PER_SEC as int) >= system_idle_secs) by (nonlinear_arith)
        requires
            x >= 0,
            system_idle_secs >= 0,
    ;
}

/// The idle monitor of the idle-time service, which reaches the timer
/// through the task service: it pauses the running task by asking the task
/// service to stop it, and keeps an idle event up to date for the user
/// interface while the user is away.
#[derive(Debug)]
pub struct IdleTimeMonitor {
    pub is_idle: bool,
    pub idle_started_at: Option<i64>,
    pub paused_task: Option<Task>,
    /// Whether the session was locked at the previous poll.
    pub was_locked: bool,
}

/// What the idle-time service does after a poll.
#[derive(Debug, Clone, Copy, PartialEq, Eq)]
pub enum IdleTimeStep {
    /// Nothing more this poll.
    Done,
    /// The user went idle: look up the running task (the first task the
    /// task service lists as running) and hand it to `pause_at`.
    FindRunningTask,
}

/// The whole seconds of an idle period that began at `start`, as of `now`,
/// never negative.
pub open spec fn idle_duration(start: i64, now: i64) -> int {
    non_negative(seconds_between(now as int, start as int))
}

impl IdleTimeMonitor {
    /// A monitor that has seen no idle period.
    pub fn new() -> (m: Self)
        ensures
            !m.is_idle,
            m.idle_started_at is None,
            m.paused_task is None,
            !m.was_locked,
    {
        IdleTimeMonitor { is_idle: false, idle_started_at: None, paused_task: None, was_locked: false }
    }

    /// The pending idle event while the user is away: the paused task, the
    /// idle seconds so far, tracking still active.
    fn tracking_event(task: &Task, started_at: i64, now: i64) -> (e: IdleEvent)
        ensures
            event_view(e) == (idle_duration(started_at, now) as i64, task.id, task.name@, true),
    {
        let d = whole_seconds_between(now, started_at);
        IdleEvent {
            idle_duration_secs: if d < 0 {
                0
            } else {
                d
            },
            task_id: task.id,
            task_name: task.name.clone(),
            tracking_active: true,
        }
    }

    /// While idle with a paused task, refreshes the pending event.
    fn refresh_pending(&self, pending: &mut Option<IdleEvent>, now: i64)
        ensures
            match (self.is_idle, self.paused_task, self.idle_started_at) {
                (true, Some(t), Some(s)) => *final(pending) matches Some(e) && event_view(e) == (
                    idle_duration(s, now) as i64,
                    t.id,
                    t.name@,
                    true,
                ),
                _ => *final(pending) == *old(pending),
            },
    {
        if self.is_idle {
            if let (Some(task), Some(started_at)) = (&self.paused_task, self.idle_started_at) {
                *pending = Some(Self::tracking_event(task, started_at, now));
            }
        }
    }

    /// Handles one poll at `now` with what the desktop reported. A user who
    /// is active again (input within `ACTIVE_THRESHOLD_SECS`, not locked)
    /// ends the idle period: the pending event then reports the paused task
    /// with tracking stopped. A user idle for `idle_threshold_secs` or
    /// locked, while not idle yet, needs the running task (`FindRunningTask`).
    /// Otherwise the pending event of an ongoing idle period is refreshed.
    pub fn poll_at(
        &mut self,
        pending: &mut Option<IdleEvent>,
        is_locked: bool,
        system_idle_secs: u64,
        idle_threshold_secs: u64,
        now: i64,
    ) -> (step: IdleTimeStep)
        ensures
            final(self).was_locked == is_locked,
            (system_idle_secs < ACTIVE_THRESHOLD_SECS && !is_locked) ==> {
                &&& step == IdleTimeStep::Done
                &&& old(self).is_idle ==> {
                    &&& !final(self).is_idle
                    &&& final(self).idle_started_at is None
                    &&& final(self).paused_task is None
                    &&& match (old(self).paused_task, old(self).idle_started_at) {
                        (Some(t), Some(s)) => *final(pending) matches Some(e) && event_view(e) == (
                            idle_duration(s, now) as i64,
                            t.id,
                            t.name@,
                            false,
                        ),
                        _ => *final(pending) == *old(pending),
                    }
                }
                &&& !old(self).is_idle ==> {
                    &&& final(self).is_idle == old(self).is_idle
                    &&& final(self).idle_started_at == old(self).idle_started_at
                    &&& final(self).paused_task == old(self).paused_task
                    &&& *final(pending) == *old(pending)
                }
            },
            !(system_idle_secs < ACTIVE_THRESHOLD_SECS && !is_locked) ==> {
                &&& final(self).is_idle == old(self).is_idle
                &&& final(self).idle_started_at == old(self).idle_started_at
                &&& final(self).paused_task == old(self).paused_task
                &&& (!old(self).is_idle && (system_idle_secs >= idle_threshold_secs || is_locked))
                    ==> step == IdleTimeStep::FindRunningTask && *final(pending) == *old(pending)
                &&& !(!old(self).is_idle && (system_idle_secs >= idle_threshold_secs || is_locked))
                    ==> {
                    &&& step == IdleTimeStep::Done
                    &&& match (old(self).is_idle, old(self).paused_task, old(self).idle_started_at) {
                        (true, Some(t), Some(s)) => *final(pending) matches Some(e) && event_view(e)
                            == (idle_duration(s, now) as i64, t.id, t.name@, true),
                        _ => *final(pending) == *old(pending),
                    }
                }
            },
    {
        self.was_locked = is_locked;
        let user_is_active = system_idle_secs < ACTIVE_THRESHOLD_SECS && !is_locked;
        if user_is_active {
            if self.is_idle {
                let task = self.paused_task.take();
                if let (Some(task), Some(started_at)) = (task, self.idle_started_at) {
                    let d = whole_seconds_between(now, started_at);
                    *pending = Some(
                        IdleEvent {
                            idle_duration_secs: if d < 0 {
                                0
                            } else {
                                d
                            },
                            task_id: task.id,
                            task_name: task.name,
                            tracking_active: false,
                        },
                    );
                }
                self.is_idle = false;
                self.idle_started_at = None;
            }
            return IdleTimeStep::Done;
        }
        if !self.is_idle && (system_idle_secs >= idle_threshold_secs || is_locked) {
            return IdleTimeStep::FindRunningTask;
        }
        self.refresh_pending(pending, now);
        IdleTimeStep::Done
    }

    /// Completes a poll that needed the running task: with one, the idle
    /// period starts `system_idle_secs` before `now`, the task is paused and
    /// the pending event reports it with tracking active; the result says
    /// whether the task service must be asked to stop the timer.
    pub fn pause_at(
        &mut self,
        pending: &mut Option<IdleEvent>,
        running: Option<Task>,
        system_idle_secs: u64,
        now: i64,
    ) -> (stop_timer: bool)
        requires
            running is Some ==> idle_start(now, system_idle_secs) >= i64::MIN,
        ensures
            stop_timer == running is Some,
            match running {
                Some(t) => {
                    &&& final(self).is_idle
                    &&& final(self).idle_started_at == Some(idle_start(now, system_idle_secs) as i64)
                    &&& final(self).paused_task == Some(t)
                    &&& final(self).was_locked == old(self).was_locked
                    &&& *final(pending) matches Some(e) && event_view(e) == (
                        idle_duration(idle_start(now, system_idle_secs) as i64, now) as i64,
                        t.id,
                        t.name@,
                        true,
                    )
                },
                None => {
                    &&& *final(self) == *old(self)
                    &&& *final(pending) == *old(pending)
                },
            },
    {
        match running {
            Some(task) => {
                let started: i64 = (now as i128 - (system_idle_secs as i128) * (
                NANOS_PER_SEC as i128)) as i64;
                *pending = Some(Self::tracking_event(&task, started, now));
                self.paused_task = Some(task);
                self.idle_started_at = Some(started);
                self.is_idle = true;
                true
            },
            None => false,
        }
    }
}

/// The first task that runs, as the task service lists them.
pub fn first_running(tasks: Vec<Task>) -> (r: Option<Task>)
    ensures
        match r {
            Some(t) => exists|i: int|
                0 <= i < tasks@.len() && tasks@[i] == t && t.running && forall|j: int|
                    0 <= j < i ==> !(#[trigger] tasks@[j]).running,
            None => forall|i: int| 0 <= i < tasks@.len() ==> !(#[trigger] tasks@[i]).running,
        },
{
    let n = tasks.len();
    let mut i: usize = 0;
    while i < n
        invariant
            n == tasks@.len(),
            0 <= i <= n,
            forall|j: int| 0 <= j < i ==> !(#[trigger] tasks@[j]).running,
        decreases n - i,
    {
        if tasks[i].running {
            let t = tasks[i].copy();
            return Some(t);
        }
        i = i + 1;
    }
    None
}

/// Input activity seen by the window: when the user last moved the mouse
/// or typed, the recorded movements and strokes (as Unix timestamps), and
/// whether an idle period was reported.
#[derive(Debug, Clone)]
pub struct ActivityState {
    /// The last input (nanoseconds on the monotonic clock).
    pub last_activity: i64,
    pub is_idle: bool,
    pub idle_duration_secs: i64,
    pub mouse_movements: Vec<i64>,
    pub keyboard_strokes: Vec<i64>,
}

/// Counts of the input activity.
#[derive(Debug, Clone, Copy, PartialEq, Eq)]
pub struct ActivityCounts {
    pub is_idle: bool,
    pub idle_duration_secs: i64,
    pub mouse_movements_count: i64,
    pub keyboard_strokes_count: i64,
}

/// The whole seconds from `earlier` to `later`, zero when `later` comes
/// first (a monotonic clock's `duration_since`).
pub open spec fn secs_since(later: i64, earlier: i64) -> int {
    if later <= earlier {
        0
    } else {
        (later - earlier) / NANOS_PER_SEC as int
    }
}

impl ActivityState {
    /// Fresh activity: the last input is `now`.
    pub fn new_at(now: i64) -> (a: Self)
        ensures
            a.last_activity == now,
            !a.is_idle,
            a.idle_duration_secs == 0,
            a.mouse_movements@.len() == 0,
            a.keyboard_strokes@.len() == 0,
    {
        ActivityState {
            last_activity: now,
            is_idle: false,
            idle_duration_secs: 0,
            mouse_movements: Vec::new(),
            keyboard_strokes: Vec::new(),
        }
    }

    /// The user acted at `now`: no longer idle.
    pub fn reset_at(&mut self, now: i64)
        ensures
            final(self).last_activity == now,
            !final(self).is_idle,
            final(self).idle_duration_secs == 0,
            final(self).mouse_movements@ == old(self).mouse_movements@,
            final(self).keyboard_strokes@ == old(self).keyboard_strokes@,
    {
        self.last_activity = now;
        self.is_idle = false;
        self.idle_duration_secs = 0;
    }

    /// Records a mouse movement at Unix time `timestamp`, seen at `now`.
    pub fn record_mouse_movement_at(&mut self, timestamp: i64, now: i64)
        ensures
            final(self).mouse_movements@ == old(self).mouse_movements@.push(timestamp),
            final(self).keyboard_strokes@ == old(self).keyboard_strokes@,
            final(self).last_activity == now,
            final(self).is_idle == old(self).is_idle,
            final(self).idle_duration_secs == old(self).idle_duration_secs,
    {
        self.mouse_movements.push(timestamp);
        self.last_activity = now;
    }

    /// Records a keystroke at Unix time `timestamp`, seen at `now`.
    pub fn record_keyboard_stroke_at(&mut self, timestamp: i64, now: i64)
        ensures
            final(self).keyboard_strokes@ == old(self).keyboard_strokes@.push(timestamp),
            final(self).mouse_movements@ == old(self).mouse_movements@,
            final(self).last_activity == now,
            final(self).is_idle == old(self).is_idle,
            final(self).idle_duration_secs == old(self).idle_duration_secs,
    {
        self.keyboard_strokes.push(timestamp);
        self.last_activity = now;
    }

    /// One check at `now`: the user becomes idle once `threshold_secs`
    /// passed without input, which reports the idle seconds once; input
    /// within the threshold ends the idle period.
    pub fn check_idle_at(&mut self, now: i64, threshold_secs: u64) -> (reported: Option<i64>)
        ensures
            final(self).last_activity == old(self).last_activity,
            final(self).mouse_movements@ == old(self).mouse_movements@,
            final(self).keyboard_strokes@ == old(self).keyboard_strokes@,
            secs_since(now, old(self).last_activity) >= threshold_secs && !old(self).is_idle ==> {
                &&& final(self).is_idle
                &&& final(self).idle_duration_secs == secs_since(now, old(self).last_activity)
                &&& reported == Some(final(self).idle_duration_secs)
            },
            secs_since(now, old(self).last_activity) < threshold_secs && old(self).is_idle ==> {
                &&& !final(self).is_idle
                &&& final(self).idle_duration_secs == 0
                &&& reported is None
            },
            !(secs_since(now, old(self).last_activity) >= threshold_secs && !old(self).is_idle) && !(
            secs_since(now, old(self).last_activity) < threshold_secs && old(self).is_idle) ==> {
                &&& final(self).is_idle == old(self).is_idle
                &&& final(self).idle_duration_secs == old(self).idle_duration_secs
                &&& reported is None
            },
    {
        let idle_time: i128 = if now <= self.last_activity {
            0
        } else {
            ((now as i128) - (self.last_activity as i128)) / (NANOS_PER_SEC as i128)
        };
        if idle_time >= threshold_secs as i128 && !self.is_idle {
            self.is_idle = true;
            self.idle_duration_secs = idle_time as i64;
            Some(self.idle_duration_secs)
        } else if idle_time < threshold_secs as i128 && self.is_idle {
            self.is_idle = false;
            self.idle_duration_secs = 0;
            None
        } else {
            None
        }
    }

    /// The counts of the input activity.
    pub fn stats(&self) -> (c: ActivityCounts)
        ensures
            c.is_idle == self.is_idle,
            c.idle_duration_secs == self.idle_duration_secs,
            c.mouse_movements_count == self.mouse_movements@.len() as i64,
            c.keyboard_strokes_count == self.keyboard_strokes@.len() as i64,
    {
        ActivityCounts {
            is_idle: self.is_idle,
            idle_duration_secs: self.idle_duration_secs,
            mouse_movements_count: self.mouse_movements.len() as i64,
            keyboard_strokes_count: self.keyboard_strokes.len() as i64,
        }
    }
}

} // verus!
