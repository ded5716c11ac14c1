use timez::clock::parse_instant;
use timez::entry_sync::{
    periodic_request, quit_attempt_step, quit_request, quit_start_notice, sync_error_notice,
    synced_message, syncing_message, QuitAttemptStep, QuitTally, QUIT_RETRY_DELAY_MS,
    QUIT_SYNC_ATTEMPTS,
};
use timez::local_store::{LocalTimeStorage, LocalTimeStore, MAX_TIMESTAMPS_PER_ENTRY};
use timez::storage::{self, CrashRecovery};

fn store() -> LocalTimeStorage {
    LocalTimeStorage::with_store(LocalTimeStore::default())
}

#[test]
fn one_running_entry_per_task() {
    let mut s = store();
    s.start_timer(1, "t0".to_string());
    s.start_timer(1, "t1".to_string());
    assert_eq!(s.store.entries.len(), 1);
    assert_eq!(s.store.entries[0].client_started_at, "t1");
    assert!(s.was_running());
    assert_eq!(s.get_last_running_task_id(), Some(1));
    s.stop_timer(1, "t2".to_string());
    assert!(!s.was_running());
    s.start_timer(1, "t3".to_string());
    assert_eq!(s.store.entries.len(), 2);
    assert_eq!(s.get_entry(1).unwrap().client_started_at, "t3");
    assert_eq!(s.get_last_running_entry().unwrap().client_started_at, "t3");
}

#[test]
fn timestamps_are_capped() {
    let mut s = store();
    s.start_timer(1, "t0".to_string());
    for k in 0..(MAX_TIMESTAMPS_PER_ENTRY as i64 + 50) {
        s.add_timestamp_at(1, k, format!("ts{k}"));
    }
    let e = s.get_entry(1).unwrap();
    assert_eq!(e.timestamps.len(), MAX_TIMESTAMPS_PER_ENTRY);
    assert_eq!(e.timestamps[0].elapsed_secs, 50);
    assert_eq!(e.timestamps.last().unwrap().elapsed_secs, MAX_TIMESTAMPS_PER_ENTRY as i64 + 49);
}

#[test]
fn sync_marks_and_cleanup() {
    let mut s = store();
    s.start_timer(1, "a".to_string());
    s.add_timestamp_at(1, 30, "x".to_string());
    assert!(s.store.entries[0].has_unsynced_time());
    assert_eq!(s.get_entries_to_sync().len(), 1);
    s.mark_synced(1, 30);
    // a running entry stays unsynced but has nothing new
    assert!(!s.store.entries[0].synced);
    assert!(!s.store.entries[0].has_unsynced_time());
    assert!(s.get_entries_to_sync().is_empty());
    s.stop_timer(1, "b".to_string());
    assert_eq!(s.get_unsynced_entries().len(), 1);
    s.cleanup_completed_entries();
    assert_eq!(s.store.entries.len(), 1);
    s.mark_synced(1, 30);
    // a stopped entry leaves the store once synced
    assert!(s.store.entries.is_empty());
    s.cleanup_completed_entries();
    assert!(s.store.entries.is_empty());
}

#[test]
fn sync_of_stopped_entry_removes_only_it() {
    let mut s = store();
    s.start_timer(1, "a".to_string());
    s.add_timestamp_at(1, 30, "x".to_string());
    s.start_timer(2, "b".to_string());
    s.stop_timer(1, "c".to_string());
    s.set_auth_token("tok".to_string());
    assert!(!s.was_running());
    s.start_timer(2, "d".to_string());
    assert!(s.was_running());
    s.mark_synced(1, 30);
    assert_eq!(s.store.entries.len(), 1);
    assert_eq!(s.store.entries[0].task_id, 2);
    assert_eq!(s.store.entries[0].client_started_at, "d");
    assert!(!s.was_running());
    assert_eq!(s.get_last_running_task_id(), None);
    assert_eq!(s.get_auth_token(), Some("tok".to_string()));
    // a task without entries: nothing changes
    s.start_timer(3, "e".to_string());
    s.mark_synced(9, 5);
    assert_eq!(s.store.entries.len(), 2);
    assert!(s.was_running());
    assert_eq!(s.get_last_running_task_id(), Some(3));
}

#[test]
fn stamps_now_are_instants() {
    let mut s = store();
    s.start_timer(1, "a".to_string());
    s.add_timestamp(1, 12);
    let e = s.get_entry(1).unwrap();
    assert_eq!(e.timestamps.len(), 1);
    assert_eq!(e.timestamps[0].elapsed_secs, 12);
    assert!(parse_instant(&e.timestamps[0].timestamp).is_some());
    s.update_last_sync();
    assert!(parse_instant(&s.get_last_sync_at().unwrap()).is_some());
    s.set_stopped(1);
    let stopped = s.store.entries[0].client_stopped_at.clone().unwrap();
    assert!(parse_instant(&stopped).is_some());
    assert!(!s.was_running());

    let mut o = open_store();
    o.set_running(4, "a".to_string());
    o.set_auth_token("tok".to_string());
    o.add_timestamp(4, 7);
    let e = o.get_entry(4).unwrap();
    assert_eq!(e.timestamps[0].elapsed_secs, 7);
    assert!(parse_instant(&e.timestamps[0].timestamp).is_some());
    o.set_stopped(4);
    assert!(!o.store.was_running);
    assert_eq!(o.store.auth_token, Some("tok".to_string()));
    assert!(parse_instant(o.store.entries[0].client_stopped_at.as_ref().unwrap()).is_some());
}

#[test]
fn quit_retry_policy() {
    assert_eq!(quit_attempt_step(1, true), QuitAttemptStep::Confirmed);
    assert_eq!(quit_attempt_step(1, false), QuitAttemptStep::RetryAfterMs(300));
    assert_eq!(quit_attempt_step(2, false), QuitAttemptStep::RetryAfterMs(QUIT_RETRY_DELAY_MS));
    assert_eq!(quit_attempt_step(2, true), QuitAttemptStep::Confirmed);
    assert_eq!(quit_attempt_step(3, false), QuitAttemptStep::GiveUp);
    assert_eq!(quit_attempt_step(3, true), QuitAttemptStep::Confirmed);
    // a backend that never confirms is tried three times in all
    let mut attempts = 0u32;
    loop {
        attempts += 1;
        if quit_attempt_step(attempts, false) == QuitAttemptStep::GiveUp {
            break;
        }
    }
    assert_eq!(attempts, QUIT_SYNC_ATTEMPTS);
    assert_eq!(QUIT_SYNC_ATTEMPTS, 3);
}

#[test]
fn auth_token_and_last_sync() {
    let mut s = store();
    assert_eq!(s.get_auth_token(), None);
    s.set_auth_token("tok".to_string());
    assert_eq!(s.get_auth_token(), Some("tok".to_string()));
    s.clear_auth_token();
    assert_eq!(s.get_auth_token(), None);
    s.update_last_sync_at("now".to_string());
    assert_eq!(s.get_last_sync_at(), Some("now".to_string()));
    s.set_running(4, "a".to_string());
    s.clear_running_state();
    assert!(!s.was_running());
    assert_eq!(s.get_last_running_task_id(), None);
    s.clear();
    assert!(s.store.entries.is_empty());
}

#[test]
fn quit_sends_unsynced_entries_with_time() {
    let mut s = store();
    s.start_timer(1, "a".to_string());
    s.add_timestamp_at(1, 10, "x".to_string());
    s.add_timestamp_at(1, 25, "y".to_string());
    s.start_timer(2, "b".to_string());
    let e1 = s.get_entry(1).unwrap();
    let r = quit_request(&e1).expect("entry with time");
    assert_eq!((r.task_id, r.elapsed_seconds), (1, 25));
    assert_eq!(r.client_started_at, "a");
    assert_eq!(r.client_stopped_at, None);
    let e2 = s.get_entry(2).unwrap();
    assert!(quit_request(&e2).is_none());
}

#[test]
fn periodic_sync_sends_only_new_time() {
    let mut s = store();
    s.start_timer(1, "a".to_string());
    s.add_timestamp_at(1, 40, "x".to_string());
    let p = periodic_request(&s.get_entry(1).unwrap()).expect("new time");
    assert_eq!(p.sync.elapsed_seconds, 40);
    assert_eq!(p.new_seconds, 40);
    s.mark_synced(1, 40);
    assert!(periodic_request(&s.get_entry(1).unwrap()).is_none());
    s.add_timestamp_at(1, 100, "y".to_string());
    let p = periodic_request(&s.get_entry(1).unwrap()).expect("new time");
    assert_eq!(p.sync.elapsed_seconds, 100);
    assert_eq!(p.new_seconds, 60);
    assert_eq!(syncing_message(p.new_seconds), "Syncing 1 min to backend");
    assert_eq!(synced_message(p.new_seconds), "1 min synced successfully");
}

#[test]
fn quit_notices() {
    assert_eq!(quit_start_notice(0), None);
    assert_eq!(
        quit_start_notice(3),
        Some(("Timez Pro - Closing".to_string(), "Syncing 3 pending entries before exit...".to_string()))
    );
    assert_eq!(
        sync_error_notice(7, "API error: down"),
        ("Timez Pro - Sync Error".to_string(), "Failed to sync task 7: API error: down".to_string())
    );
    let mut t = QuitTally::new();
    assert_eq!(t.final_notice(), None);
    t.record(true);
    t.record(true);
    assert_eq!(
        t.final_notice(),
        Some(("Timez Pro - Goodbye".to_string(), "All 2 entries synced successfully!".to_string()))
    );
    t.record(false);
    assert_eq!(
        t.final_notice(),
        Some(("Timez Pro - Warning".to_string(), "2 entries synced, 1 failed. Data may be lost.".to_string()))
    );
}

fn open_store() -> storage::LocalTimeStorage {
    storage::LocalTimeStorage::with_store(storage::LocalTimeStore::default())
}

#[test]
fn open_entries_restart_until_synced() {
    let mut s = open_store();
    s.set_running(3, "a".to_string());
    s.add_timestamp_at(3, 12, "x".to_string());
    s.set_running(3, "b".to_string());
    assert_eq!(s.store.entries.len(), 1);
    let e = s.get_entry(3).unwrap();
    assert_eq!(e.client_started_at, "b");
    assert!(e.timestamps.is_empty());
    s.set_stopped_at(3, "c".to_string());
    assert!(!s.was_running());
    s.mark_synced(3);
    assert!(s.get_entry(3).is_none());
    assert!(s.get_unsynced_entries().is_empty());
}

#[test]
fn crash_recovery_plans() {
    let mut s = open_store();
    assert_eq!(s.begin_crash_recovery(true), CrashRecovery::NotRunning);
    s.set_running(5, "start".to_string());
    assert_eq!(
        s.begin_crash_recovery(true),
        CrashRecovery::Recover { task_id: 5, recovery_timestamp: "start".to_string() }
    );
    s.add_timestamp_at(5, 10, "tick".to_string());
    assert_eq!(
        s.begin_crash_recovery(true),
        CrashRecovery::Recover { task_id: 5, recovery_timestamp: "tick".to_string() }
    );
    assert!(s.was_running());
    assert_eq!(s.begin_crash_recovery(false), CrashRecovery::AwaitingSignIn { task_id: 5 });
    assert!(!s.was_running());
    assert_eq!(s.get_last_running_task_id(), None);
    assert_eq!(s.get_unsynced_entries().len(), 1);
    let mut t = open_store();
    t.set_running(6, "a".to_string());
    t.mark_synced(6);
    assert_eq!(t.begin_crash_recovery(true), CrashRecovery::NoEntry);
}

#[test]
fn entries_to_sync_follow_new_time_and_unsynced_stops() {
    let mut s = store();
    // stopped before any timestamp: still to sync
    s.start_timer(1, "a".to_string());
    s.stop_timer(1, "b".to_string());
    // running, with new time
    s.start_timer(2, "c".to_string());
    s.add_timestamp_at(2, 15, "x".to_string());
    // running, nothing new
    s.start_timer(3, "d".to_string());
    s.add_timestamp_at(3, 20, "y".to_string());
    s.mark_synced(3, 20);
    let ids: Vec<i64> = s.get_entries_to_sync().iter().map(|e| e.task_id).collect();
    assert_eq!(ids, vec![1, 2]);
    assert_eq!(s.get_unsynced_entries().len(), 2);
    // a stopped entry that is marked synced is not to sync
    s.store.entries[0].synced = true;
    let ids: Vec<i64> = s.get_entries_to_sync().iter().map(|e| e.task_id).collect();
    assert_eq!(ids, vec![2]);
}
