use timez::sync_queue::{PendingSyncEntry, SyncQueue, MAX_RETRY_ATTEMPTS};

const SEC: i64 = 1_000_000_000;
const T0: i64 = 1_700_000_000 * SEC;

#[test]
fn test_backoff_delay() {
    let mut entry = PendingSyncEntry::new(1, 100, "2024-01-01T00:00:00Z".to_string(), None);

    // First retry: 5 seconds
    assert_eq!(entry.get_backoff_delay_secs(), 5);

    entry.retry_count = 1;
    // Second retry: 10 seconds
    assert_eq!(entry.get_backoff_delay_secs(), 10);

    entry.retry_count = 2;
    // Third retry: 20 seconds
    assert_eq!(entry.get_backoff_delay_secs(), 20);

    entry.retry_count = 6;
    // Should cap at MAX_RETRY_DELAY_SECS (300)
    assert_eq!(entry.get_backoff_delay_secs(), 300);
}

#[test]
fn test_exhausted() {
    let mut entry = PendingSyncEntry::new(1, 100, "2024-01-01T00:00:00Z".to_string(), None);

    assert!(!entry.is_exhausted());

    entry.retry_count = MAX_RETRY_ATTEMPTS;
    assert!(entry.is_exhausted());
}

#[test]
fn backoff_keeps_doubling_to_the_cap() {
    let mut entry = PendingSyncEntry::new_at(1, 100, "s".to_string(), None, T0);
    let expected = [5u64, 10, 20, 40, 80, 160, 300, 300, 300, 300];
    for (n, d) in expected.iter().enumerate() {
        entry.retry_count = n as u32;
        assert_eq!(entry.get_backoff_delay_secs(), *d);
    }
    entry.retry_count = u32::MAX;
    assert_eq!(entry.get_backoff_delay_secs(), 300);
}

#[test]
fn retry_waits_for_the_backoff_delay() {
    let mut entry = PendingSyncEntry::new_at(1, 100, "s".to_string(), None, T0);
    assert_eq!(entry.queued_at, T0);
    // never attempted: due at once
    assert!(entry.should_retry_at(T0));
    entry.record_failure_at("offline".to_string(), T0);
    assert_eq!(entry.retry_count, 1);
    assert_eq!(entry.last_attempt_at, Some(T0));
    assert_eq!(entry.last_error.as_deref(), Some("offline"));
    // one failure: 10 seconds
    assert!(!entry.should_retry_at(T0 + 9 * SEC));
    assert!(entry.should_retry_at(T0 + 10 * SEC));
    entry.retry_count = MAX_RETRY_ATTEMPTS;
    assert!(!entry.should_retry_at(T0 + 1_000_000 * SEC));
}

#[test]
fn retry_slot_of_a_stopped_entry_is_final() {
    let running = PendingSyncEntry::new_at(1, 5, "a".to_string(), None, T0);
    assert_eq!(running.retry_slot_end("now".to_string()), "now");
    assert!(!running.retry_is_final());
    let stopped = PendingSyncEntry::new_at(1, 5, "a".to_string(), Some("b".to_string()), T0);
    assert_eq!(stopped.retry_slot_end("now".to_string()), "b");
    assert!(stopped.retry_is_final());
}

#[test]
fn enqueue_keeps_one_entry_per_task() {
    let mut q = SyncQueue::new();
    q.enqueue_at(1, 100, "a".to_string(), None, T0);
    q.enqueue_at(2, 50, "b".to_string(), None, T0);
    q.enqueue_at(1, 160, "a".to_string(), None, T0 + SEC);
    assert_eq!(q.pending_count(), 2);
    assert!(q.has_pending());
    let e = &q.entries[&1];
    assert_eq!(e.elapsed_seconds, 160);
    assert_eq!(e.queued_at, T0 + SEC);
    q.mark_synced(1);
    assert_eq!(q.pending_count(), 1);
    assert!(q.entries.values().all(|e| e.task_id != 1));
    assert!(!q.entries.contains_key(&1));
    q.mark_synced(99);
    assert_eq!(q.pending_count(), 1);
}

#[test]
fn entry_moves_to_failed_after_max_retries() {
    let mut q = SyncQueue::new();
    q.enqueue_at(7, 300, "a".to_string(), None, T0);
    for k in 1..MAX_RETRY_ATTEMPTS {
        q.record_failure_at(7, format!("error {k}"), T0 + k as i64 * SEC);
        assert_eq!(q.pending_count(), 1);
        assert_eq!(q.entries[&7].retry_count, k);
    }
    q.record_failure_at(7, "last".to_string(), T0 + 100 * SEC);
    assert_eq!(q.pending_count(), 0);
    assert_eq!(q.failed_count(), 1);
    assert_eq!(q.failed_entries[0].retry_count, MAX_RETRY_ATTEMPTS);
    assert_eq!(q.failed_entries[0].last_error.as_deref(), Some("last"));
    // moving them back resets the retries
    q.retry_failed();
    assert_eq!(q.failed_count(), 0);
    assert_eq!(q.pending_count(), 1);
    assert_eq!(q.entries[&7].retry_count, 0);
    assert_eq!(q.entries[&7].last_attempt_at, None);
    assert_eq!(q.entries[&7].last_error, None);
    assert_eq!(q.entries[&7].elapsed_seconds, 300);
}

#[test]
fn entries_to_retry_follow_the_backoff() {
    let mut q = SyncQueue::new();
    q.enqueue_at(1, 10, "a".to_string(), None, T0);
    q.enqueue_at(2, 20, "b".to_string(), None, T0);
    q.record_failure_at(2, "down".to_string(), T0);
    let due: Vec<i64> = q.get_entries_to_retry_at(T0 + SEC).iter().map(|e| e.task_id).collect();
    assert_eq!(due, vec![1]);
    let mut due: Vec<i64> = q.get_entries_to_retry_at(T0 + 10 * SEC).iter().map(|e| e.task_id).collect();
    due.sort();
    assert_eq!(due, vec![1, 2]);
}

#[test]
fn sync_status_reports_counts_and_last_error() {
    let mut q = SyncQueue::new();
    let s = q.sync_status_at(T0);
    assert_eq!((s.pending_count, s.failed_count, s.has_errors), (0, 0, false));
    assert_eq!(s.last_error, None);
    q.enqueue_at(1, 10, "a".to_string(), None, T0);
    q.enqueue_at(2, 20, "b".to_string(), None, T0);
    q.record_failure_at(2, "second".to_string(), T0);
    let s = q.sync_status_at(T0 + 10 * SEC);
    assert_eq!((s.pending_count, s.failed_count, s.has_errors), (2, 0, true));
    assert_eq!(s.last_error.as_deref(), Some("second"));
    // with two errors, the one shown is that of the due entry walked last
    q.record_failure_at(1, "first".to_string(), T0);
    let s = q.sync_status_at(T0 + 10 * SEC);
    assert!(matches!(s.last_error.as_deref(), Some("first") | Some("second")));
    // before the backoff passed no entry is due, so no error is shown
    let s = q.sync_status_at(T0 + SEC);
    assert_eq!(s.last_error, None);
    q.clear();
    assert_eq!(q.pending_count(), 0);
}

#[test]
fn restore_dedupes_and_sorts_out_exhausted_entries() {
    let a = PendingSyncEntry::new_at(1, 10, "a".to_string(), None, T0);
    let b = PendingSyncEntry::new_at(1, 20, "a".to_string(), None, T0);
    let mut c = PendingSyncEntry::new_at(2, 30, "c".to_string(), None, T0);
    c.retry_count = MAX_RETRY_ATTEMPTS;
    let q = SyncQueue::restore(vec![a, b, c], vec![]);
    assert_eq!(q.pending_count(), 1);
    assert_eq!(q.entries[&1].elapsed_seconds, 20);
    assert_eq!(q.failed_count(), 1);
    assert_eq!(q.failed_entries[0].task_id, 2);
}

#[test]
fn restoring_a_queue_reproduces_it() {
    let mut q = SyncQueue::new();
    q.enqueue_at(3, 30, "c".to_string(), None, T0);
    q.enqueue_at(1, 10, "a".to_string(), Some("z".to_string()), T0);
    q.record_failure_at(3, "down".to_string(), T0 + SEC);
    let saved: Vec<PendingSyncEntry> = q.entries.values().cloned().collect();
    let copy = SyncQueue::restore(saved, q.failed_entries.clone());
    let mut ids: Vec<(i64, i64, u32)> =
        copy.entries.values().map(|e| (e.task_id, e.elapsed_seconds, e.retry_count)).collect();
    ids.sort();
    assert_eq!(ids, vec![(1, 10, 0), (3, 30, 1)]);
    assert_eq!(copy.entries[&3].last_error.as_deref(), Some("down"));
    assert_eq!(copy.entries[&1].client_stopped_at.as_deref(), Some("z"));
    assert_eq!(copy.failed_count(), 0);
}

#[test]
fn should_retry_now() {
    let mut entry = PendingSyncEntry::new(1, 100, "2024-01-01T00:00:00Z".to_string(), None);
    assert!(entry.should_retry());
    entry.retry_count = MAX_RETRY_ATTEMPTS;
    assert!(!entry.should_retry());
}
