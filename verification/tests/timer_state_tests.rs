use timez::timer_state::{MidnightResetInfo, SlotCheck, SlotSync, TimerStateInner, MAX_SESSION_SECS};

const SEC: i64 = 1_000_000_000;
/// 2023-11-14T22:13:20Z
const T0: i64 = 1_700_000_000 * SEC;
const DAY: i32 = 738_838;

#[test]
fn test_start_task_sets_running_state() {
    let mut state = TimerStateInner::new_on(DAY);
    let sync = state.start_task_at(42, T0);
    assert!(sync.is_none());
    assert_eq!(state.running_task_id, Some(42));
    assert_eq!(state.timer_started_at, Some(T0));
    assert_eq!(state.session_started_at, Some(T0));
    assert_eq!(state.last_task_id, Some(42));
    assert!(state.is_running());
}

#[test]
fn test_stop_task_clears_running_state() {
    let mut state = TimerStateInner::new_on(DAY);
    state.start_task_at(42, T0);
    let sync = state.stop_current_at(T0 + 90 * SEC);
    assert_eq!(
        sync,
        Some(SlotSync {
            task_id: 42,
            slot_seconds: 90,
            session_start: T0,
            slot_end: T0 + 90 * SEC,
            is_final: true,
        })
    );
    assert_eq!(state.running_task_id, None);
    assert_eq!(state.timer_started_at, None);
    assert_eq!(state.session_started_at, None);
    assert_eq!(state.last_task_id, Some(42));
    assert_eq!(state.base_elapsed.get(&42), Some(&90));
    assert!(!state.is_running());
}

#[test]
fn test_get_total_elapsed_calculates_correctly() {
    let mut state = TimerStateInner::new_on(DAY);
    state.base_elapsed.insert(7, 100);
    state.start_task_at(7, T0 - 30 * SEC);
    assert_eq!(state.get_total_elapsed_at(7, T0), 130);
    // a task that does not run counts its base only
    state.base_elapsed.insert(8, 55);
    assert_eq!(state.get_total_elapsed_at(8, T0), 55);
    assert_eq!(state.get_total_elapsed_at(9, T0), 0);
}

#[test]
fn test_elapsed_handles_clock_drift() {
    let mut state = TimerStateInner::new_on(DAY);
    state.base_elapsed.insert(3, 10);
    state.start_task_at(3, T0);
    // the clock jumps three days ahead: the live interval counts 24 hours
    assert_eq!(state.get_total_elapsed_at(3, T0 + 3 * 86_400 * SEC), 10 + MAX_SESSION_SECS);
    // the clock jumps back an hour: the live interval counts nothing
    assert_eq!(state.get_total_elapsed_at(3, T0 - 3_600 * SEC), 10);
}

#[test]
fn test_elapsed_no_negative_values() {
    let mut state = TimerStateInner::new_on(DAY);
    state.start_task_at(5, T0);
    // timer started in the future (clock adjusted backwards)
    assert_eq!(state.get_total_elapsed_at(5, T0 - 60 * SEC), 0);
    let status = state.status_at(T0 - 60 * SEC);
    assert_eq!(status.current_entry_elapsed, 0);
    let sync = state.stop_current_at(T0 - 60 * SEC);
    assert!(sync.is_none());
    assert_eq!(state.base_elapsed.get(&5), Some(&0));
}

#[test]
fn test_midnight_reset_syncs_and_clears() {
    let mut state = TimerStateInner::new_on(DAY);
    state.base_elapsed.insert(11, 500);
    // running at 23:59:59 of the tracking day
    state.start_task_at(11, T0);
    assert_eq!(state.check_midnight_reset_at(DAY, T0 + SEC), None);
    // time advances past midnight
    let reset = state.check_midnight_reset_at(DAY + 1, T0 + 2 * SEC).expect("reset");
    assert_eq!(
        reset.sync,
        Some(SlotSync {
            task_id: 11,
            slot_seconds: 2,
            session_start: T0,
            slot_end: T0 + 2 * SEC,
            is_final: true,
        })
    );
    let info = reset.info(true);
    assert_eq!(info.synced_task_id, Some(11));
    assert_eq!(info.synced_elapsed, 2);
    // the new day starts fresh
    assert_eq!(state.running_task_id, None);
    assert!(state.base_elapsed.is_empty());
    assert_eq!(state.current_day(), DAY + 1);
    assert_eq!(state.get_total_elapsed_at(11, T0 + 3 * SEC), 0);
    // the reset happens once per day
    assert_eq!(state.check_midnight_reset_at(DAY + 1, T0 + 4 * SEC), None);
}

#[test]
fn test_no_memory_leak_on_repeated_start_stop() {
    let mut state = TimerStateInner::new_on(DAY);
    let mut t = T0;
    for _ in 0..1000 {
        state.start_task_at(1, t);
        t += SEC;
        state.stop_current_at(t);
        t += SEC;
    }
    assert_eq!(state.base_elapsed.len(), 1);
    assert_eq!(state.base_elapsed.get(&1), Some(&1000));
    assert!(state.cached_tasks.is_empty());
    assert!(state.last_synced_elapsed.is_empty());
}

#[test]
fn test_elapsed_accuracy_over_long_duration() {
    let mut state = TimerStateInner::new_on(DAY);
    state.start_task_at(2, T0);
    assert_eq!(state.get_total_elapsed_at(2, T0 + 28_800 * SEC), 28_800);
    let sync = state.stop_current_at(T0 + 28_800 * SEC).expect("final slot");
    assert_eq!(sync.slot_seconds, 28_800);
    assert_eq!(state.get_total_elapsed_at(2, T0 + 40_000 * SEC), 28_800);
}

#[test]
fn slot_check_reports_seconds_since_last_report() {
    let mut state = TimerStateInner::new_on(DAY);
    assert_eq!(state.check_slot_at(T0), SlotCheck::NotRunning);
    state.start_task_at(4, T0);
    assert_eq!(state.check_slot_at(T0), SlotCheck::NothingToSync);
    let check = state.check_slot_at(T0 + 30 * SEC);
    let slot = SlotSync {
        task_id: 4,
        slot_seconds: 30,
        session_start: T0,
        slot_end: T0 + 30 * SEC,
        is_final: false,
    };
    assert_eq!(check, SlotCheck::Send(slot));
    state.slot_synced_at(&slot, T0 + 30 * SEC);
    assert_eq!(state.last_slot_sync_at, Some(T0 + 30 * SEC));
    assert_eq!(state.last_synced_elapsed.get(&4), Some(&30));
    // the final slot covers only the time since the last report
    let last = state.stop_current_at(T0 + 45 * SEC).expect("final slot");
    assert_eq!(last.slot_seconds, 15);
    assert_eq!(last.session_start, T0);
}

#[test]
fn switching_tasks_reports_the_previous_one() {
    let mut state = TimerStateInner::new_on(DAY);
    state.start_task_at(1, T0);
    // starting the same task again changes nothing
    assert!(state.start_task_at(1, T0 + 5 * SEC).is_none());
    assert_eq!(state.timer_started_at, Some(T0));
    let sync = state.start_task_at(2, T0 + 60 * SEC).expect("slot of task 1");
    assert_eq!(sync.task_id, 1);
    assert_eq!(sync.slot_seconds, 60);
    assert_eq!(state.running_task_id, Some(2));
    assert_eq!(state.base_elapsed.get(&1), Some(&60));
}

#[test]
fn idle_time_kept_is_added_to_the_task() {
    let mut state = TimerStateInner::new_on(DAY);
    state.base_elapsed.insert(6, 40);
    state.resume_with_idle_time_at(6, 300, T0);
    assert_eq!(state.base_elapsed.get(&6), Some(&340));
    assert_eq!(state.running_task_id, Some(6));
    assert_eq!(state.get_total_elapsed_at(6, T0 + 10 * SEC), 350);
}

#[test]
fn midnight_event_names_the_new_day() {
    // 2024-01-01 is day 738_886 counted from 0001-01-01 as day 1
    let state = TimerStateInner::new_on(738_886);
    let e = state.midnight_event(MidnightResetInfo { synced_task_id: Some(3), synced_elapsed: 42 });
    assert_eq!(e.new_date, "2024-01-01");
    assert_eq!(e.synced_task_id, Some(3));
    assert_eq!(e.synced_elapsed, 42);
    let far = TimerStateInner::new_on(i32::MAX);
    assert_eq!(far.midnight_event(MidnightResetInfo { synced_task_id: None, synced_elapsed: 0 }).new_date, i32::MAX.to_string());
}

#[test]
fn keeping_idle_time_adds_exactly_the_idle_seconds() {
    let mut base = TimerStateInner::new_on(DAY);
    base.base_elapsed.insert(6, 40);
    let mut kept = TimerStateInner::new_on(DAY);
    kept.base_elapsed.insert(6, 40);
    kept.resume_with_idle_time_at(6, 300, T0);
    base.start_task_at(6, T0);
    let later = T0 + 25 * SEC;
    assert_eq!(base.get_total_elapsed_at(6, later), 65);
    assert_eq!(kept.get_total_elapsed_at(6, later), 365);
}

#[test]
fn stop_fails_when_final_sync_fails() {
    assert_eq!(TimerStateInner::stop_result(None), Ok(()));
    assert_eq!(TimerStateInner::stop_result(Some(Ok(()))), Ok(()));
    assert_eq!(
        TimerStateInner::stop_result(Some(Err("API error: offline".to_string()))),
        Err("API error: offline".to_string())
    );
}

#[test]
fn starting_another_task_stops_the_running_one() {
    let mut state = TimerStateInner::new_on(DAY);
    assert!(!state.runs_other_than(1));
    state.start_task_at(1, T0);
    assert!(!state.runs_other_than(1));
    assert!(state.runs_other_than(2));
    let slot = state.stop_current_at(T0 + 90 * SEC).expect("a final slot");
    assert_eq!(slot.slot_seconds, 90);
    assert!(slot.is_final);
    assert!(!state.runs_other_than(2));
    assert_eq!(state.start_task_at(2, T0 + 90 * SEC), None);
    assert_eq!(state.running_task_id, Some(2));
}

#[test]
fn clock_wrappers_record_an_instant() {
    let mut state = TimerStateInner::new_on(DAY);
    assert_eq!(state.start_task(5), None);
    assert_eq!(state.running_task_id, Some(5));
    let before = state.timer_started_at.unwrap();
    state.mark_synced(5, 40);
    assert_eq!(state.base_elapsed.get(&5), Some(&40));
    assert!(state.timer_started_at.unwrap() >= before);
    state.resume_with_idle_time(6, 30);
    assert_eq!(state.base_elapsed.get(&6), Some(&30));
    assert_eq!(state.running_task_id, Some(6));
    assert!(state.session_started_at.is_some());
    assert_eq!(state.session_started_at, state.timer_started_at);
}
