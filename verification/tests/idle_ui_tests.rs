use timez::idle::{
    first_running, ActivityState, ActivityTracker, IdleMonitor, IdleTimeMonitor, IdleTimeStep,
};
use timez::models::{IdleEvent, Task};
use timez::sync_cycle::{
    queue_failed_slot_at, settle_retry_at, settle_slot_at, slot_confirmed_at, SyncCycle,
};
use timez::sync_queue::SyncQueue;
use timez::timer_state::{SlotCheck, TimerStateInner};
use timez::ui_bridge::{
    is_show_command, midnight_stop_due, put_pixel, toggle_target, tray_toggle, EventBridge,
    TrayToggle,
};

const SEC: i64 = 1_000_000_000;
const T0: i64 = 1_700_000_000 * SEC;
const DAY: i32 = 738_838;

fn task(id: i64, name: &str, elapsed: i64, running: bool) -> Task {
    Task {
        id,
        name: name.to_string(),
        budget_secs: 28_800,
        elapsed_secs: elapsed,
        running,
        project_id: None,
        project_name: None,
    }
}

#[test]
fn activity_tracker_counts() {
    let mut a = ActivityTracker::new_at(T0);
    a.record_active_at(10, T0 + SEC);
    a.record_idle(4);
    assert_eq!((a.active_secs, a.idle_secs, a.last_activity_at), (10, 4, T0 + SEC));
    assert_eq!(a.total_secs(), 14);
    a.record_poll(5, false);
    a.record_poll(0, true);
    a.record_poll(1, false);
    assert_eq!((a.active_secs, a.idle_secs), (12, 8));
    a.reset_at(T0 + 2 * SEC);
    assert_eq!((a.active_secs, a.idle_secs, a.last_activity_at), (0, 0, T0 + 2 * SEC));
}

#[test]
fn idle_period_pauses_and_reports_the_task() {
    let mut timer = TimerStateInner::new_on(DAY);
    timer.cached_tasks.push(task(3, "Design", 0, false));
    timer.start_task_at(3, T0);
    let mut m = IdleMonitor::new();
    let mut a = ActivityTracker::new_at(T0);

    // active poll
    let r = m.poll_at(&mut a, &mut timer, false, 1, 60, T0 + 2 * SEC);
    assert!(r.event.is_none() && r.stop_sync.is_none());
    assert_eq!(a.active_secs, 2);

    // idle for 70 s: the period began 70 s ago and the task is stopped
    let now = T0 + 600 * SEC;
    let r = m.poll_at(&mut a, &mut timer, false, 70, 60, now);
    assert!(m.is_idle);
    assert_eq!(m.idle_started_at, Some(now - 70 * SEC));
    assert_eq!(m.paused_task_id, Some(3));
    assert_eq!(m.paused_task_name.as_deref(), Some("Design"));
    assert!(r.event.is_none());
    let sync = r.stop_sync.expect("final slot");
    assert_eq!((sync.task_id, sync.slot_seconds, sync.is_final), (3, 600, true));
    assert_eq!(timer.running_task_id, None);

    // still idle: counted as idle time
    m.poll_at(&mut a, &mut timer, true, 200, 60, now + 2 * SEC);
    assert_eq!(a.idle_secs, 2);

    // back: the event reports the time away
    let r = m.poll_at(&mut a, &mut timer, false, 0, 60, now + 130 * SEC);
    let e = r.event.expect("idle event");
    assert_eq!(
        e,
        IdleEvent { idle_duration_secs: 200, task_id: 3, task_name: "Design".to_string(), tracking_active: false }
    );
    assert!(!m.is_idle);
    assert_eq!(m.paused_task_id, None);
}

#[test]
fn idle_without_running_task_reports_nothing() {
    let mut timer = TimerStateInner::new_on(DAY);
    let mut m = IdleMonitor::new();
    let mut a = ActivityTracker::new_at(T0);
    let r = m.poll_at(&mut a, &mut timer, true, 0, 60, T0);
    assert!(m.is_idle && r.stop_sync.is_none());
    let r = m.poll_at(&mut a, &mut timer, false, 0, 60, T0 + 10 * SEC);
    assert!(r.event.is_none());
    assert!(!m.is_idle);
}

#[test]
fn unnamed_task_is_labelled_by_id() {
    let mut timer = TimerStateInner::new_on(DAY);
    timer.start_task_at(77, T0);
    let mut m = IdleMonitor::new();
    let mut a = ActivityTracker::new_at(T0);
    m.poll_at(&mut a, &mut timer, false, 61, 60, T0 + 100 * SEC);
    assert_eq!(m.paused_task_name.as_deref(), Some("Task 77"));
}

#[test]
fn idle_time_service_monitor() {
    let mut m = IdleTimeMonitor::new();
    let mut pending: Option<IdleEvent> = None;
    assert_eq!(m.poll_at(&mut pending, false, 1, 60, T0), IdleTimeStep::Done);
    assert_eq!(m.poll_at(&mut pending, false, 65, 60, T0), IdleTimeStep::FindRunningTask);
    let running = first_running(vec![task(1, "A", 0, false), task(2, "B", 5, true), task(3, "C", 0, true)]);
    assert_eq!(running.as_ref().map(|t| t.id), Some(2));
    assert!(m.pause_at(&mut pending, running, 65, T0));
    assert!(m.is_idle);
    let e = pending.clone().unwrap();
    assert_eq!((e.task_id, e.idle_duration_secs, e.tracking_active), (2, 65, true));
    // while idle the pending event keeps counting
    assert_eq!(m.poll_at(&mut pending, true, 10, 60, T0 + 35 * SEC), IdleTimeStep::Done);
    assert!(m.was_locked);
    assert_eq!(pending.as_ref().unwrap().idle_duration_secs, 100);
    // back: tracking stops
    assert_eq!(m.poll_at(&mut pending, false, 0, 60, T0 + 55 * SEC), IdleTimeStep::Done);
    let e = pending.clone().unwrap();
    assert_eq!((e.task_id, e.idle_duration_secs, e.tracking_active), (2, 120, false));
    assert!(!m.is_idle && m.paused_task.is_none());
    // no running task: nothing to pause
    let mut m2 = IdleTimeMonitor::new();
    let mut p2: Option<IdleEvent> = None;
    assert!(!m2.pause_at(&mut p2, first_running(vec![task(1, "A", 0, false)]), 65, T0));
    assert!(!m2.is_idle && p2.is_none());
}

#[test]
fn sync_cycle_runs_full_sync_every_sixth_check() {
    let mut c = SyncCycle::new();
    let fulls: Vec<bool> = (0..12).map(|_| c.tick()).collect();
    assert_eq!(
        fulls,
        vec![false, false, false, false, false, true, false, false, false, false, false, true]
    );
}

#[test]
fn failed_slot_is_queued_and_confirmed_slot_leaves_queue() {
    let mut timer = TimerStateInner::new_on(DAY);
    timer.base_elapsed.insert(4, 100);
    timer.start_task_at(4, 0);
    let mut q = SyncQueue::new();
    queue_failed_slot_at(&timer, &mut q, 60 * SEC);
    assert_eq!(q.pending_count(), 1);
    assert_eq!(q.entries[&4].elapsed_seconds, 160);
    assert_eq!(q.entries[&4].client_started_at, "1970-01-01T00:00:00+00:00");
    assert_eq!(q.entries[&4].client_stopped_at, None);
    let slot = match timer.check_slot_at(60 * SEC) {
        timez::timer_state::SlotCheck::Send(s) => s,
        other => panic!("unexpected {other:?}"),
    };
    slot_confirmed_at(&mut timer, &mut q, &slot, 60 * SEC);
    assert_eq!(q.pending_count(), 0);
    assert_eq!(timer.last_slot_sync_at, Some(60 * SEC));
    // with no timer running nothing is queued
    let idle = TimerStateInner::new_on(DAY);
    queue_failed_slot_at(&idle, &mut q, 60 * SEC);
    assert_eq!(q.pending_count(), 0);
}

#[test]
fn retries_settle() {
    let mut q = SyncQueue::new();
    q.enqueue_at(1, 10, "a".to_string(), None, T0);
    q.enqueue_at(2, 10, "b".to_string(), None, T0);
    settle_retry_at(&mut q, 1, Ok(()), T0);
    settle_retry_at(&mut q, 2, Err("down".to_string()), T0);
    assert_eq!(q.pending_count(), 1);
    assert_eq!(q.entries[&2].task_id, 2);
    assert_eq!(q.entries[&2].retry_count, 1);
}

#[test]
fn toggle_target_prefers_running_then_most_elapsed() {
    assert_eq!(toggle_target(&vec![]), None);
    assert_eq!(
        toggle_target(&vec![task(1, "a", 50, false), task(2, "b", 10, true), task(3, "c", 90, true)]),
        Some(2)
    );
    // the last of the tasks with the most time, as max_by_key picks
    assert_eq!(
        toggle_target(&vec![task(1, "a", 90, false), task(2, "b", 10, false), task(3, "c", 90, false)]),
        Some(3)
    );
}

#[test]
fn event_bridge_reacts_to_changes() {
    let mut b = EventBridge::new();
    let ev = IdleEvent { idle_duration_secs: 5, task_id: 1, task_name: "a".to_string(), tracking_active: true };
    let a = b.on_idle_event(Some(ev.clone()));
    assert!(a.keep_visible);
    let (shown, focus) = a.show.expect("shown");
    assert_eq!(shown, ev);
    assert!(focus);
    // the same event again: nothing new
    let a = b.on_idle_event(Some(ev.clone()));
    assert!(a.show.is_none() && !a.cleared && a.keep_visible);
    // same task, still tracking: shown without focus
    let ev2 = IdleEvent { idle_duration_secs: 7, ..ev.clone() };
    let (_, focus) = b.on_idle_event(Some(ev2.clone())).show.expect("shown");
    assert!(!focus);
    // tracking stopped: focus
    let ev3 = IdleEvent { tracking_active: false, ..ev2 };
    let (_, focus) = b.on_idle_event(Some(ev3)).show.expect("shown");
    assert!(focus);
    let a = b.on_idle_event(None);
    assert!(a.cleared && !a.keep_visible);

    let s = b.on_status(true);
    assert!(s.update_icon && !s.timer_stopped);
    let s = b.on_status(true);
    assert!(!s.update_icon && !s.timer_stopped);
    let s = b.on_status(false);
    assert!(s.update_icon && s.timer_stopped);
}

#[test]
fn put_pixel_writes_rgba() {
    let size = 4usize;
    let mut rgba = vec![0u8; size * size * 4];
    put_pixel(&mut rgba, size, 1, 2, [1, 2, 3, 4]);
    let idx = (2 * size + 1) * 4;
    assert_eq!(&rgba[idx..idx + 4], &[1, 2, 3, 4]);
    assert_eq!(rgba.iter().filter(|b| **b != 0).count(), 4);
}

#[test]
fn show_command_ignores_surrounding_space() {
    assert!(is_show_command("show\n"));
    assert!(is_show_command("  show \r\n"));
    assert!(!is_show_command("show me"));
    assert!(!is_show_command(""));
    assert!(!is_show_command("SHOW"));
}

#[test]
fn input_activity_reports_idle_once() {
    let mut a = ActivityState::new_at(T0);
    a.record_mouse_movement_at(1_700_000_000, T0 + SEC);
    a.record_keyboard_stroke_at(1_700_000_001, T0 + 2 * SEC);
    assert_eq!(a.check_idle_at(T0 + 30 * SEC, 60), None);
    assert_eq!(a.check_idle_at(T0 + 62 * SEC + SEC / 2, 60), Some(60));
    assert!(a.is_idle);
    assert_eq!(a.check_idle_at(T0 + 100 * SEC, 60), None);
    assert_eq!(a.idle_duration_secs, 60);
    let c = a.stats();
    assert_eq!((c.mouse_movements_count, c.keyboard_strokes_count), (1, 1));
    a.reset_at(T0 + 101 * SEC);
    assert!(!a.is_idle);
    assert_eq!(a.check_idle_at(T0 + 90 * SEC, 60), None);
}

#[test]
fn timestamp_sample_of_running_timer() {
    let mut timer = TimerStateInner::new_on(DAY);
    assert_eq!(timer.timestamp_sample_at(T0), None);
    timer.start_task_at(9, T0);
    assert_eq!(timer.timestamp_sample_at(T0 + 5 * SEC), Some((9, 5)));
    assert_eq!(timer.timestamp_sample_at(T0 - 5 * SEC), Some((9, 0)));
    // no 24-hour cap here: the recorder stores what the clock says
    assert_eq!(timer.timestamp_sample_at(T0 + 100_000 * SEC), Some((9, 100_000)));
}

#[test]
fn tray_toggle_actions() {
    assert_eq!(tray_toggle(Some(3), Some(2)), TrayToggle::StopTimer);
    assert_eq!(tray_toggle(Some(3), None), TrayToggle::StopTimer);
    assert_eq!(tray_toggle(None, Some(2)), TrayToggle::StartTask(2));
    assert_eq!(tray_toggle(None, None), TrayToggle::ShowWindow);
}

#[test]
fn timer_stops_in_first_utc_minute() {
    // 2023-11-15T00:00:00Z
    let midnight: i64 = 1_700_006_400 * SEC;
    assert!(midnight_stop_due(midnight, true));
    assert!(!midnight_stop_due(midnight, false));
    assert!(midnight_stop_due(midnight + 59 * SEC + 999_999_999, true));
    assert!(!midnight_stop_due(midnight + 60 * SEC, true));
    assert!(!midnight_stop_due(midnight - 1, true));
    assert!(midnight_stop_due(0, true));
    // before the epoch: 1969-12-31T00:00:30Z, and 1969-12-31T23:59:59.5Z
    assert!(midnight_stop_due(-86_370 * SEC, true));
    assert!(!midnight_stop_due(-SEC / 2, true));
    assert!(!midnight_stop_due(T0, true));
}

#[test]
fn idle_period_stops_the_timer_once() {
    let mut timer = TimerStateInner::new_on(DAY);
    timer.start_task_at(9, T0);
    let mut m = IdleMonitor::new();
    let mut a = ActivityTracker::new_at(T0);
    let mut stops = 0;
    let mut events = Vec::new();
    // idle past the threshold, then away for several polls, then back
    let polls: [(bool, u64, i64); 5] = [
        (false, 61, T0 + 100 * SEC),
        (false, 63, T0 + 102 * SEC),
        (true, 5, T0 + 104 * SEC),
        (false, 90, T0 + 130 * SEC),
        (false, 1, T0 + 140 * SEC),
    ];
    for (locked, idle, now) in polls {
        let r = m.poll_at(&mut a, &mut timer, locked, idle, 60, now);
        if r.stop_sync.is_some() {
            stops += 1;
        }
        events.push(r.event);
    }
    assert_eq!(stops, 1);
    assert!(events[..4].iter().all(|e| e.is_none()));
    let e = events[4].clone().expect("idle event");
    // away since 61 s before the first idle poll: 140 - 100 + 61 seconds
    assert_eq!(
        e,
        IdleEvent { idle_duration_secs: 101, task_id: 9, task_name: "Task 9".to_string(), tracking_active: false }
    );
    assert!(!m.is_idle);
    assert_eq!(timer.running_task_id, None);
}

#[test]
fn full_sync_settles_the_slot_report() {
    let mut timer = TimerStateInner::new_on(DAY);
    timer.start_task_at(4, 0);
    let mut q = SyncQueue::new();
    // a failed slot is queued
    let check = timer.check_slot_at(60 * SEC);
    settle_slot_at(&mut timer, &mut q, &check, Err("down".to_string()), 60 * SEC);
    assert_eq!(q.pending_count(), 1);
    assert_eq!(q.entries[&4].elapsed_seconds, 60);
    // a confirmed slot is recorded and leaves the queue
    let check = timer.check_slot_at(90 * SEC);
    settle_slot_at(&mut timer, &mut q, &check, Ok(()), 90 * SEC);
    assert_eq!(q.pending_count(), 0);
    assert_eq!(timer.last_slot_sync_at, Some(90 * SEC));
    // nothing new: the running task leaves the queue
    q.enqueue_at(4, 90, "s".to_string(), None, 90 * SEC);
    let check = timer.check_slot_at(90 * SEC);
    assert_eq!(check, SlotCheck::NothingToSync);
    settle_slot_at(&mut timer, &mut q, &check, Ok(()), 90 * SEC);
    assert_eq!(q.pending_count(), 0);
    // a running timer without a slot session counts as a failed report
    timer.last_slot_sync_at = None;
    let check = timer.check_slot_at(100 * SEC);
    assert_eq!(check, SlotCheck::NotRunning);
    settle_slot_at(&mut timer, &mut q, &check, Ok(()), 100 * SEC);
    assert_eq!(q.pending_count(), 1);
    assert_eq!(q.entries[&4].elapsed_seconds, 100);
    // no timer: nothing happens
    let mut idle = TimerStateInner::new_on(DAY);
    let mut q2 = SyncQueue::new();
    settle_slot_at(&mut idle, &mut q2, &SlotCheck::NotRunning, Ok(()), 0);
    assert_eq!(q2.pending_count(), 0);
}
