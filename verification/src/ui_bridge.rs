//! Decisions of the desktop shell: which task the tray's pause/resume item
//! starts, what the event bridge does with what it polled from the
//! services, and the pixel writes of the status icon.

use vstd::prelude::*;

use crate::clock::NANOS_PER_SEC;
use crate::idle::event_view;
use crate::models::{IdleEvent, Task};
use crate::text::chars_of;
use crate::url::{range_equals, trim_range, trimmed};

verus! {

/// `tasks[i]` is the first running task.
pub open spec fn first_running_at(tasks: Seq<Task>, i: int) -> bool {
    0 <= i < tasks.len() && tasks[i].running && forall|j: int| 0 <= j < i ==> !(#[trigger] tasks[j]).running
}

/// `tasks[i]` has the most elapsed time, and every later task has less.
pub open spec fn last_most_elapsed_at(tasks: Seq<Task>, i: int) -> bool {
    &&& 0 <= i < tasks.len()
    &&& forall|j: int| 0 <= j < tasks.len() ==> (#[trigger] tasks[j]).elapsed_secs <= tasks[i].elapsed_secs
    &&& forall|j: int| i < j < tasks.len() ==> (#[trigger] tasks[j]).elapsed_secs < tasks[i].elapsed_secs
}

/// The task that the tray's pause/resume item starts when no timer runs:
/// the first running task, else the task with the most elapsed time (the
/// last of those with as much), else none.
pub open spec fn toggle_pick(tasks: Seq<Task>) -> Option<i64> {
    if exists|i: int| #[trigger] first_running_at(tasks, i) {
        Some(tasks[choose|i: int| #[trigger] first_running_at(tasks, i)].id)
    } else if exists|i: int| #[trigger] last_most_elapsed_at(tasks, i) {
        Some(tasks[choose|i: int| #[trigger] last_most_elapsed_at(tasks, i)].id)
    } else {
        None
    }
}

/// The task that the tray's pause/resume item starts when no timer runs:
/// the first running task, else the one with the most elapsed time (the
/// last of equals), else none.
pub fn toggle_target(tasks: &Vec<Task>) -> (r: Option<i64>)
    ensures
        r == toggle_pick(tasks@),
{
    let ghost ts = tasks@;
    let n = tasks.len();
    let mut i: usize = 0;
    while i < n
        invariant
            n == ts.len(),
            ts == tasks@,
            0 <= i <= n,
            forall|j: int| 0 <= j < i ==> !(#[trigger] ts[j]).running,
        decreases n - i,
    {
        if tasks[i].running {
            proof {
                assert(first_running_at(ts, i as int));
                let k = choose|k: int| #[trigger] first_running_at(ts, k);
                if k < i {
                    assert(!ts[k].running);
                }
                if k > i {
                    assert(!ts[i as int].running);
                }
            }
            return Some(tasks[i].id);
        }
        i = i + 1;
    }
    if n == 0 {
        assert(!exists|i: int| #[trigger] first_running_at(ts, i));
        assert(!exists|i: int| #[trigger] last_most_elapsed_at(ts, i));
        return None;
    }
    let mut best: usize = 0;
    let mut k: usize = 1;
    while k < n
        invariant
            n == ts.len(),
            ts == tasks@,
            0 <= best < k <= n,
            forall|j: int| 0 <= j < k ==> (#[trigger] ts[j]).elapsed_secs <= ts[best as int].elapsed_secs,
            forall|j: int| best < j < k ==> (#[trigger] ts[j]).elapsed_secs < ts[best as int].elapsed_secs,
        decreases n - k,
    {
        if tasks[k].elapsed_secs >= tasks[best].elapsed_secs {
            best = k;
        }
        k = k + 1;
    }
    proof {
        assert(!exists|i: int| #[trigger] first_running_at(ts, i));
        assert(last_most_elapsed_at(ts, best as int));
        let c = choose|c: int| #[trigger] last_most_elapsed_at(ts, c);
        if c < best {
            assert(ts[best as int].elapsed_secs <= ts[c].elapsed_secs);
            assert(ts[best as int].elapsed_secs < ts[c].elapsed_secs);
        }
        if c > best {
            assert(ts[c].elapsed_secs <= ts[best as int].elapsed_secs);
            assert(ts[c].elapsed_secs < ts[best as int].elapsed_secs);
        }
    }
    Some(tasks[best].id)
}

/// What the event bridge last saw of the services.
#[derive(Debug)]
pub struct EventBridge {
    pub last_running: bool,
    pub last_idle_event: Option<IdleEvent>,
}

/// What the bridge does after polling the idle event.
#[derive(Debug)]
pub struct IdleBridgeAction {
    /// An idle event is pending: keep the window visible.
    pub keep_visible: bool,
    /// The event changed to this one: bring the window to the front when
    /// `focus` is set, report the event and that the timer stopped.
    pub show: Option<(IdleEvent, bool)>,
    /// The pending event went away.
    pub cleared: bool,
}

/// What the bridge does after polling the timer status.
#[derive(Debug, Clone, Copy, PartialEq, Eq)]
pub struct StatusBridgeAction {
    /// The running state changed: redraw the status icon.
    pub update_icon: bool,
    /// The timer stopped since the last poll.
    pub timer_stopped: bool,
}

/// An optional idle event as plain values.
pub open spec fn opt_event_view(e: Option<IdleEvent>) -> Option<(i64, i64, Seq<char>, bool)> {
    match e {
        Some(x) => Some(event_view(x)),
        None => None,
    }
}

/// Whether a new idle event brings the window to the front: always for a
/// first event, else when it is about another task or tracking stopped
/// since the previous one.
pub open spec fn focus_for(previous: Option<(i64, i64, Seq<char>, bool)>, event: (i64, i64, Seq<char>, bool)) -> bool {
    match previous {
        None => true,
        Some(p) => p.1 != event.1 || (p.3 && !event.3),
    }
}

fn same_event(a: &Option<IdleEvent>, b: &Option<IdleEvent>) -> (r: bool)
    ensures
        r == (opt_event_view(*a) == opt_event_view(*b)),
{
    match (a, b) {
        (Some(x), Some(y)) => {
            let r = x.idle_duration_secs == y.idle_duration_secs && x.task_id == y.task_id
                && x.task_name == y.task_name && x.tracking_active == y.tracking_active;
            r
        },
        (None, None) => true,
        _ => false,
    }
}

fn copy_event(e: &IdleEvent) -> (c: IdleEvent)
    ensures
        event_view(c) == event_view(*e),
{
    IdleEvent {
        idle_duration_secs: e.idle_duration_secs,
        task_id: e.task_id,
        task_name: e.task_name.clone(),
        tracking_active: e.tracking_active,
    }
}

impl EventBridge {
    /// Nothing seen yet: no timer running, no idle event.
    pub fn new() -> (b: Self)
        ensures
            !b.last_running,
            b.last_idle_event is None,
    {
        EventBridge { last_running: false, last_idle_event: None }
    }

    /// Handles the idle event that the idle-time service reported.
    pub fn on_idle_event(&mut self, idle_event: Option<IdleEvent>) -> (a: IdleBridgeAction)
        ensures
            a.keep_visible == idle_event is Some,
            opt_event_view(final(self).last_idle_event) == opt_event_view(idle_event),
            final(self).last_running == old(self).last_running,
            opt_event_view(idle_event) == opt_event_view(old(self).last_idle_event) ==> a.show is None
                && !a.cleared,
            opt_event_view(idle_event) != opt_event_view(old(self).last_idle_event) ==> match idle_event {
                Some(e) => a.show matches Some((x, focus)) && event_view(x) == event_view(e) && focus
                    == focus_for(opt_event_view(old(self).last_idle_event), event_view(e))
                    && !a.cleared,
                None => a.show is None && a.cleared,
            },
    {
        let keep_visible = idle_event.is_some();
        if same_event(&idle_event, &self.last_idle_event) {
            self.last_idle_event = idle_event;
            return IdleBridgeAction { keep_visible, show: None, cleared: false };
        }
        let action = match &idle_event {
            Some(event) => {
                let focus = match &self.last_idle_event {
                    None => true,
                    Some(previous) => previous.task_id != event.task_id || (previous.tracking_active
                        && !event.tracking_active),
                };
                IdleBridgeAction {
                    keep_visible,
                    show: Some((copy_event(event), focus)),
                    cleared: false,
                }
            },
            None => IdleBridgeAction { keep_visible, show: None, cleared: true },
        };
        self.last_idle_event = idle_event;
        action
    }

    /// Handles the timer status that the task service reported.
    pub fn on_status(&mut self, running: bool) -> (a: StatusBridgeAction)
        ensures
            a.update_icon == (running != old(self).last_running),
            a.timer_stopped == (old(self).last_running && !running),
            final(self).last_running == running,
            opt_event_view(final(self).last_idle_event) == opt_event_view(old(self).last_idle_event),
    {
        let a = StatusBridgeAction {
            update_icon: running != self.last_running,
            timer_stopped: self.last_running && !running,
        };
        self.last_running = running;
        a
    }
}

/// Writes one RGBA pixel of a square image `size` pixels wide.
pub fn put_pixel(rgba: &mut Vec<u8>, size: usize, x: usize, y: usize, color: [u8; 4])
    requires
        (y * size + x) * 4 + 4 <= old(rgba)@.len(),
    ensures
        final(rgba)@ == old(rgba)@.update((y * size + x) * 4, color[0]).update(
            (y * size + x) * 4 + 1,
            color[1],
        ).update((y * size + x) * 4 + 2, color[2]).update((y * size + x) * 4 + 3, color[3]),
{
    let len = rgba.len();
    assert(y * size + x <= usize::MAX / 4) by (nonlinear_arith)
        requires
            (y * size + x) * 4 + 4 <= usize::MAX,
            y * size >= 0,
    ;
    let idx = (y * size + x) * 4;
    rgba.set(idx, color[0]);
    rgba.set(idx + 1, color[1]);
    rgba.set(idx + 2, color[2]);
    rgba.set(idx + 3, color[3]);
}

/// Whether a line that a second start of the app sent asks the running
/// app to show its window: "show", apart from surrounding white space.
pub fn is_show_command(line: &str) -> (b: bool)
    ensures
        b == (trimmed(line@) == "show"@),
{
    let cs = chars_of(line);
    assert(cs@.subrange(0, cs@.len() as int) =~= cs@);
    let (lo, hi) = trim_range(&cs, 0, cs.len());
    let key = chars_of("show");
    range_equals(&cs, lo, hi, &key)
}

/// What the tray menu's timer toggle does.
#[derive(Debug, Clone, Copy, PartialEq, Eq)]
pub enum TrayToggle {
    /// Stop the running timer.
    StopTimer,
    /// Start the timer of the last task again.
    StartTask(i64),
    /// Nothing to start: show the main window.
    ShowWindow,
}

/// The tray menu's timer toggle: it stops the running timer; with none, it
/// restarts the last task; with no last task, it shows the window.
pub fn tray_toggle(running_task_id: Option<i64>, last_task_id: Option<i64>) -> (a: TrayToggle)
    ensures
        a == match (running_task_id, last_task_id) {
            (Some(_), _) => TrayToggle::StopTimer,
            (None, Some(id)) => TrayToggle::StartTask(id),
            (None, None) => TrayToggle::ShowWindow,
        },
{
    match (running_task_id, last_task_id) {
        (Some(_), _) => TrayToggle::StopTimer,
        (None, Some(id)) => TrayToggle::StartTask(id),
        (None, None) => TrayToggle::ShowWindow,
    }
}

/// Seconds in a day.
pub const SECS_PER_DAY: i64 = 86_400;

/// Whether the instant `now` (nanoseconds since the epoch) falls in the
/// first minute of a UTC day, 00:00: its whole second, counted from the
/// epoch and rounded down, is under a minute past a multiple of a day.
pub open spec fn in_utc_midnight_minute(now: int) -> bool {
    (now / (NANOS_PER_SEC as int)) % (SECS_PER_DAY as int) < 60
}

/// Whether the periodic sync at `now` stops the timer for the new day: a
/// timer runs and the UTC time is 00:00.
pub fn midnight_stop_due(now: i64, running: bool) -> (b: bool)
    ensures
        b == (running && in_utc_midnight_minute(now as int)),
{
    let secs: i64 = if now >= 0 {
        now / NANOS_PER_SEC
    } else {
        let m: i64 = -(now + 1);
        let q: i64 = m / NANOS_PER_SEC;
        proof {
            lemma_floor_div_negative(now as int, NANOS_PER_SEC as int, m as int, q as int);
        }
        -q - 1
    };
    let day_secs: i64 = if secs >= 0 {
        secs % SECS_PER_DAY
    } else {
        let m: i64 = -(secs + 1);
        let r: i64 = m % SECS_PER_DAY;
        proof {
            lemma_floor_mod_negative(secs as int, SECS_PER_DAY as int, m as int, r as int);
        }
        SECS_PER_DAY - 1 - r
    };
    running && day_secs < 60
}

/// For `a < 0` and `d > 0`, with `m = -(a + 1)`: `a / d == -(m / d) - 1`.
proof fn lemma_floor_div_negative(a: int, d: int, m: int, q: int)
    requires
        a < 0,
        d > 0,
        m == -(a + 1),
        q == m / d,
    ensures
        a / d == -q - 1,
{
    let r = m % d;
    assert(m == d * q + r && 0 <= r < d) by {
        vstd::arithmetic::div_mod::lemma_fundamental_div_mod(m, d);
    }
    // a = -m - 1 = d * (-q - 1) + (d - 1 - r), with 0 <= d - 1 - r < d
    assert(a == d * (-q - 1) + (d - 1 - r)) by (nonlinear_arith)
        requires
            m == d * q + r,
            a == -(m + 1),
    ;
    vstd::arithmetic::div_mod::lemma_fundamental_div_mod_converse(a, d, -q - 1, d - 1 - r);
}

/// For `a < 0` and `d > 0`, with `m = -(a + 1)`: `a % d == d - 1 - m % d`.
proof fn lemma_floor_mod_negative(a: int, d: int, m: int, r: int)
    requires
        a < 0,
        d > 0,
        m == -(a + 1),
        r == m % d,
    ensures
        a % d == d - 1 - r,
{
    let q = m / d;
    assert(m == d * q + r && 0 <= r < d) by {
        vstd::arithmetic::div_mod::lemma_fundamental_div_mod(m, d);
    }
    assert(a == d * (-q - 1) + (d - 1 - r)) by (nonlinear_arith)
        requires
            m == d * q + r,
            a == -(m + 1),
    ;
    vstd::arithmetic::div_mod::lemma_fundamental_div_mod_converse(a, d, -q - 1, d - 1 - r);
}

} // verus!
