//! Queue of sync operations that could not reach the backend.
//!
//! No time data is lost during network failures: a slot that failed to sync
//! is queued (one entry per task, the latest state) and retried with
//! exponential backoff. An entry that failed `MAX_RETRY_ATTEMPTS` times
//! moves to the failed list, from which it can be moved back on request.
//! The queue is kept in memory here; the caller persists it after each change.

use std::collections::HashMap;

use vstd::prelude::*;

use crate::clock::{now, NANOS_PER_SEC};
use crate::local_store::opt_view;
use crate::models::{clone_opt_string, SyncQueueStatus};


verus! {

broadcast use vstd::std_specs::hash::group_hash_axioms;

/// Maximum retry attempts before giving up on a sync entry.
pub const MAX_RETRY_ATTEMPTS: u32 = 10;

/// Base delay for exponential backoff (seconds).
pub const BASE_RETRY_DELAY_SECS: u64 = 5;

/// Maximum delay cap for exponential backoff (seconds): 5 minutes.
pub const MAX_RETRY_DELAY_SECS: u64 = 300;

/// A pending sync operation that needs to be sent to the server.
#[derive(Debug, Clone)]
pub struct PendingSyncEntry {
    /// Task ID to sync
    pub task_id: i64,
    /// Total elapsed seconds to sync
    pub elapsed_seconds: i64,
    /// When the client timer started (RFC3339 format)
    pub client_started_at: String,
    /// When the client timer stopped (RFC3339 format), None if still running
    pub client_stopped_at: Option<String>,
    /// Number of retry attempts made
    pub retry_count: u32,
    /// When this entry was first queued (nanoseconds since the epoch)
    pub queued_at: i64,
    /// When the last retry attempt was made (nanoseconds since the epoch)
    pub last_attempt_at: Option<i64>,
    /// Last error message (if any)
    pub last_error: Option<String>,
}

/// A pending sync entry as plain values.
pub struct PendingView {
    pub task_id: i64,
    pub elapsed_seconds: i64,
    pub client_started_at: Seq<char>,
    pub client_stopped_at: Option<Seq<char>>,
    pub retry_count: u32,
    pub queued_at: i64,
    pub last_attempt_at: Option<i64>,
    pub last_error: Option<Seq<char>>,
}

impl View for PendingSyncEntry {
    type V = PendingView;

    open spec fn view(&self) -> PendingView {
        PendingView {
            task_id: self.task_id,
            elapsed_seconds: self.elapsed_seconds,
            client_started_at: self.client_started_at@,
            client_stopped_at: opt_view(self.client_stopped_at),
            retry_count: self.retry_count,
            queued_at: self.queued_at,
            last_attempt_at: self.last_attempt_at,
            last_error: opt_view(self.last_error),
        }
    }
}

/// `2^n`.
pub open spec fn two_pow(n: nat) -> nat
    decreases n,
{
    if n == 0 {
        1
    } else {
        2 * two_pow((n - 1) as nat)
    }
}

/// The backoff delay after `retries` failed attempts:
/// `min(BASE_RETRY_DELAY_SECS * 2^retries, MAX_RETRY_DELAY_SECS)` seconds.
pub open spec fn backoff_delay(retries: nat) -> int {
    let d = BASE_RETRY_DELAY_SECS * two_pow(retries);
    if d > MAX_RETRY_DELAY_SECS {
        MAX_RETRY_DELAY_SECS as int
    } else {
        d as int
    }
}

/// Whether an entry has used up its retries.
pub open spec fn exhausted(e: PendingView) -> bool {
    e.retry_count >= MAX_RETRY_ATTEMPTS
}

/// Whether an entry is due for a retry at instant `now`: it has retries
/// left, and either was never attempted or its backoff delay has passed
/// since the last attempt.
pub open spec fn due_at(e: PendingView, now: int) -> bool {
    &&& !exhausted(e)
    &&& match e.last_attempt_at {
        None => true,
        Some(t) => now >= t + backoff_delay(e.retry_count as nat) * NANOS_PER_SEC,
    }
}

/// [`due_at`] as a predicate on entries.
pub open spec fn due(now: int) -> spec_fn(PendingView) -> bool {
    |e: PendingView| due_at(e, now)
}

/// A newly queued entry.
pub open spec fn fresh_pending(
    task_id: i64,
    elapsed_seconds: i64,
    client_started_at: Seq<char>,
    client_stopped_at: Option<Seq<char>>,
    queued_at: i64,
) -> PendingView {
    PendingView {
        task_id,
        elapsed_seconds,
        client_started_at,
        client_stopped_at,
        retry_count: 0,
        queued_at,
        last_attempt_at: None,
        last_error: None,
    }
}

/// An entry after one more failed attempt at `now` with `error`.
pub open spec fn failed_once(e: PendingView, error: Seq<char>, now: i64) -> PendingView {
    PendingView {
        retry_count: (e.retry_count + 1) as u32,
        last_attempt_at: Some(now),
        last_error: Some(error),
        ..e
    }
}

/// `2^a <= 2^b` for `a <= b`.
proof fn lemma_two_pow_monotone(a: nat, b: nat)
    requires
        a <= b,
    ensures
        two_pow(a) <= two_pow(b),
    decreases b,
{
    if a < b {
        lemma_two_pow_monotone(a, (b - 1) as nat);
    }
}

impl PendingSyncEntry {
    /// Creates a new pending sync entry queued at `queued_at`.
    pub fn new_at(
        task_id: i64,
        elapsed_seconds: i64,
        client_started_at: String,
        client_stopped_at: Option<String>,
        queued_at: i64,
    ) -> (e: Self)
        ensures
            e@ == fresh_pending(
                task_id,
                elapsed_seconds,
                client_started_at@,
                opt_view(client_stopped_at),
                queued_at,
            ),
    {
        PendingSyncEntry {
            task_id,
            elapsed_seconds,
            client_started_at,
            client_stopped_at,
            retry_count: 0,
            queued_at,
            last_attempt_at: None,
            last_error: None,
        }
    }

    /// Creates a new pending sync entry queued now.
    pub fn new(
        task_id: i64,
        elapsed_seconds: i64,
        client_started_at: String,
        client_stopped_at: Option<String>,
    ) -> (e: Self)
        ensures
            e@ == fresh_pending(
                task_id,
                elapsed_seconds,
                client_started_at@,
                opt_view(client_stopped_at),
                e.queued_at,
            ),
    {
        Self::new_at(task_id, elapsed_seconds, client_started_at, client_stopped_at, now())
    }

    /// An exact copy.
    pub fn copy(&self) -> (c: Self)
        ensures
            c@ == self@,
    {
        PendingSyncEntry {
            task_id: self.task_id,
            elapsed_seconds: self.elapsed_seconds,
            client_started_at: self.client_started_at.clone(),
            client_stopped_at: clone_opt_string(&self.client_stopped_at),
            retry_count: self.retry_count,
            queued_at: self.queued_at,
            last_attempt_at: self.last_attempt_at,
            last_error: clone_opt_string(&self.last_error),
        }
    }

    /// Returns the exponential backoff delay in seconds for the current
    /// retry count.
    pub fn get_backoff_delay_secs(&self) -> (d: u64)
        ensures
            d == backoff_delay(self.retry_count as nat),
    {
        let mut delay: u64 = BASE_RETRY_DELAY_SECS;
        let mut i: u32 = 0;
        while i < self.retry_count && delay < MAX_RETRY_DELAY_SECS
            invariant
                i <= self.retry_count,
                delay == BASE_RETRY_DELAY_SECS * two_pow(i as nat),
                delay < 2 * MAX_RETRY_DELAY_SECS,
            decreases self.retry_count - i,
        {
            delay = delay * 2;
            i = i + 1;
        }
        proof {
            lemma_two_pow_monotone(i as nat, self.retry_count as nat);
        }
        if delay > MAX_RETRY_DELAY_SECS {
            MAX_RETRY_DELAY_SECS
        } else {
            delay
        }
    }

    /// Returns true if this entry has exceeded max retries.
    pub fn is_exhausted(&self) -> (b: bool)
        ensures
            b == exhausted(self@),
    {
        self.retry_count >= MAX_RETRY_ATTEMPTS
    }

    /// Returns true if this entry should be retried at instant `now` based
    /// on exponential backoff.
    pub fn should_retry_at(&self, now: i64) -> (b: bool)
        ensures
            b == due_at(self@, now as int),
    {
        if self.retry_count >= MAX_RETRY_ATTEMPTS {
            return false;
        }
        match self.last_attempt_at {
            None => true,
            Some(last_attempt) => {
                let delay_secs = self.get_backoff_delay_secs();
                let next_attempt_at: i128 = (last_attempt as i128) + (delay_secs as i128) * (
                NANOS_PER_SEC as i128);
                (now as i128) >= next_attempt_at
            },
        }
    }

    /// Returns true if this entry should be retried now based on
    /// exponential backoff. An entry with no retries left never is; one
    /// never attempted always is.
    pub fn should_retry(&self) -> (b: bool)
        ensures
            exists|t: int| i64::MIN <= t <= i64::MAX && b == #[trigger] due_at(self@, t),
            b ==> !exhausted(self@),
            !exhausted(self@) && self.last_attempt_at is None ==> b,
    {
        self.should_retry_at(now())
    }

    /// Records a failed attempt at `now` with an error message.
    pub fn record_failure_at(&mut self, error: String, now: i64)
        requires
            old(self).retry_count < u32::MAX,
        ensures
            final(self)@ == failed_once(old(self)@, error@, now),
    {
        self.retry_count = self.retry_count + 1;
        self.last_attempt_at = Some(now);
        self.last_error = Some(error);
    }

    /// Records a failed attempt now with an error message.
    pub fn record_failure(&mut self, error: String)
        requires
            old(self).retry_count < u32::MAX,
        ensures
            final(self)@ == failed_once(old(self)@, error@, final(self).last_attempt_at->0),
            final(self).last_attempt_at is Some,
    {
        self.record_failure_at(error, now());
    }

    /// Marks this entry as having been attempted at `now`.
    pub fn record_attempt_at(&mut self, now: i64)
        ensures
            final(self)@ == (PendingView { last_attempt_at: Some(now), ..old(self)@ }),
    {
        self.last_attempt_at = Some(now);
    }

    /// Marks this entry as having been attempted now (for success case
    /// before removal).
    pub fn record_attempt(&mut self)
        ensures
            final(self)@ == (PendingView {
                last_attempt_at: final(self).last_attempt_at,
                ..old(self)@
            }),
            final(self).last_attempt_at is Some,
    {
        self.record_attempt_at(now());
    }

    /// The end of the slot that a retry reports: the stop time for a
    /// stopped timer, else `now_text` (the current instant).
    pub fn retry_slot_end(&self, now_text: String) -> (s: String)
        ensures
            s@ == match self.client_stopped_at {
                Some(t) => t@,
                None => now_text@,
            },
    {
        match &self.client_stopped_at {
            Some(t) => t.clone(),
            None => now_text,
        }
    }

    /// Whether a retry reports the final slot of its session (the timer
    /// was stopped).
    pub fn retry_is_final(&self) -> (b: bool)
        ensures
            b == self.client_stopped_at is Some,
    {
        self.client_stopped_at.is_some()
    }
}

/// The retry queue: pending entries keyed by task id (one per task, none
/// out of retries) and entries that exceeded max retries, kept for manual
/// recovery.
pub struct SyncQueue {
    pub entries: HashMap<i64, PendingSyncEntry>,
    pub failed_entries: Vec<PendingSyncEntry>,
}

/// The queue as plain values.
pub struct QueueView {
    pub pending: Map<i64, PendingView>,
    pub failed: Seq<PendingView>,
}

impl View for SyncQueue {
    type V = QueueView;

    open spec fn view(&self) -> QueueView {
        QueueView {
            pending: self.entries@.map_values(|e: PendingSyncEntry| e@),
            failed: self.failed_entries@.map_values(|e: PendingSyncEntry| e@),
        }
    }
}

/// The queue's invariant: each pending entry is keyed by its task and has
/// retries left.
pub open spec fn queue_wf(q: QueueView) -> bool {
    &&& q.pending.dom().finite()
    &&& forall|k: i64|
        #[trigger] q.pending.contains_key(k) ==> q.pending[k].task_id == k && !exhausted(
            q.pending[k],
        )
}

/// The queue after `enqueue`: the task's pending entry is the fresh one.
pub open spec fn enqueued(q: QueueView, e: PendingView) -> QueueView {
    QueueView { pending: q.pending.insert(e.task_id, e), ..q }
}

/// The queue after the task's entry synced: it is no longer pending.
pub open spec fn synced_out(q: QueueView, task_id: i64) -> QueueView {
    QueueView { pending: q.pending.remove(task_id), ..q }
}

/// The queue after a failed attempt for the task at `now`: the entry counts
/// one more failure, and moves to the failed list once out of retries.
pub open spec fn failure_recorded(q: QueueView, task_id: i64, error: Seq<char>, now: i64) -> QueueView {
    if q.pending.contains_key(task_id) {
        let e = failed_once(q.pending[task_id], error, now);
        if exhausted(e) {
            QueueView { pending: q.pending.remove(task_id), failed: q.failed.push(e) }
        } else {
            QueueView { pending: q.pending.insert(task_id, e), ..q }
        }
    } else {
        q
    }
}

/// A failed entry with its retries reset, ready to be queued again.
pub open spec fn reset(e: PendingView) -> PendingView {
    PendingView { retry_count: 0, last_attempt_at: None, last_error: None, ..e }
}

/// The pending entries after the failed ones were put back, in order (a
/// later entry of a task replaces an earlier one).
pub open spec fn requeued(pending: Map<i64, PendingView>, failed: Seq<PendingView>) -> Map<
    i64,
    PendingView,
>
    decreases failed.len(),
{
    if failed.len() == 0 {
        pending
    } else {
        requeued(pending, failed.drop_last()).insert(failed.last().task_id, reset(failed.last()))
    }
}

/// The last error recorded among `s`, looking from the end.
pub open spec fn last_error_of(s: Seq<PendingView>) -> Option<Seq<char>>
    decreases s.len(),
{
    if s.len() == 0 {
        None
    } else {
        match s.last().last_error {
            Some(e) => Some(e),
            None => last_error_of(s.drop_last()),
        }
    }
}

/// The queue after the saved pending entries `loaded` were put in, in
/// order: an entry out of retries joins the failed list, any other becomes
/// its task's pending entry.
pub open spec fn restored(q: QueueView, loaded: Seq<PendingView>) -> QueueView
    decreases loaded.len(),
{
    if loaded.len() == 0 {
        q
    } else {
        let r = restored(q, loaded.drop_last());
        let e = loaded.last();
        if exhausted(e) {
            QueueView { failed: r.failed.push(e), ..r }
        } else {
            QueueView { pending: r.pending.insert(e.task_id, e), ..r }
        }
    }
}

/// Entries by their views.
pub open spec fn views(s: Seq<PendingSyncEntry>) -> Seq<PendingView> {
    s.map_values(|e: PendingSyncEntry| e@)
}

/// `s` lists the entries of `pending` that are due at `now`, each once, in
/// some order (the order in which the map is walked).
pub open spec fn retry_batch(pending: Map<i64, PendingView>, now: int, s: Seq<PendingView>) -> bool {
    &&& forall|i: int|
        0 <= i < s.len() ==> pending.contains_key((#[trigger] s[i]).task_id) && pending[s[i].task_id]
            == s[i] && due_at(s[i], now)
    &&& forall|k: i64|
        #[trigger] pending.contains_key(k) && due_at(pending[k], now) ==> exists|i: int|
            0 <= i < s.len() && (#[trigger] s[i]).task_id == k
    &&& forall|i: int, j: int|
        0 <= i < j < s.len() ==> (#[trigger] s[i]).task_id != (#[trigger] s[j]).task_id
}

/// Putting an entry with retries left under its task keeps the invariant.
proof fn lemma_insert_wf(q: QueueView, e: PendingView)
    requires
        queue_wf(q),
        !exhausted(e),
    ensures
        queue_wf(QueueView { pending: q.pending.insert(e.task_id, e), ..q }),
{
}

/// Removing a task's entry keeps the invariant.
proof fn lemma_remove_wf(q: QueueView, task_id: i64, failed: Seq<PendingView>)
    requires
        queue_wf(q),
    ensures
        queue_wf(QueueView { pending: q.pending.remove(task_id), failed }),
{
}

impl SyncQueue {
    /// An empty queue.
    pub fn new() -> (q: Self)
        ensures
            q@.pending == Map::<i64, PendingView>::empty(),
            q@.failed == Seq::<PendingView>::empty(),
            queue_wf(q@),
    {
        let q = SyncQueue { entries: HashMap::new(), failed_entries: Vec::new() };
        assert(q@.pending =~= Map::<i64, PendingView>::empty());
        assert(q@.failed =~= Seq::<PendingView>::empty());
        q
    }

    /// Puts `e` in as its task's pending entry.
    fn put(&mut self, e: PendingSyncEntry)
        ensures
            final(self)@ == (QueueView {
                pending: old(self)@.pending.insert(e.task_id, e@),
                ..old(self)@
            }),
    {
        let ghost ev = e@;
        let ghost m0 = self.entries@;
        self.entries.insert(e.task_id, e);
        assert(self@.pending =~= old(self)@.pending.insert(ev.task_id, ev));
    }

    /// Adds or updates the pending sync entry of a task, queued at `now`.
    /// An existing entry for the task is replaced: the latest elapsed time
    /// is always the one kept.
    pub fn enqueue_at(
        &mut self,
        task_id: i64,
        elapsed_seconds: i64,
        client_started_at: String,
        client_stopped_at: Option<String>,
        now: i64,
    )
        requires
            queue_wf(old(self)@),
        ensures
            final(self)@ == enqueued(
                old(self)@,
                fresh_pending(
                    task_id,
                    elapsed_seconds,
                    client_started_at@,
                    opt_view(client_stopped_at),
                    now,
                ),
            ),
            queue_wf(final(self)@),
    {
        let entry = PendingSyncEntry::new_at(
            task_id,
            elapsed_seconds,
            client_started_at,
            client_stopped_at,
            now,
        );
        proof {
            lemma_insert_wf(self@, entry@);
        }
        self.put(entry);
    }

    /// Adds or updates the pending sync entry of a task, queued now.
    pub fn enqueue(
        &mut self,
        task_id: i64,
        elapsed_seconds: i64,
        client_started_at: String,
        client_stopped_at: Option<String>,
    )
        requires
            queue_wf(old(self)@),
        ensures
            exists|t: i64|
                final(self)@ == #[trigger] enqueued(
                    old(self)@,
                    fresh_pending(
                        task_id,
                        elapsed_seconds,
                        client_started_at@,
                        opt_view(client_stopped_at),
                        t,
                    ),
                ),
            queue_wf(final(self)@),
    {
        self.enqueue_at(task_id, elapsed_seconds, client_started_at, client_stopped_at, now());
    }

    /// The task ids of the pending entries, each once, in the order the
    /// map is walked.
    fn pending_task_ids(&self) -> (ks: Vec<i64>)
        ensures
            ks@.to_set() == self.entries@.dom(),
            ks@.no_duplicates(),
    {
        let mut out: Vec<i64> = Vec::new();
        for k in it: self.entries.keys()
            invariant
                out@ == it.seq().unref().take(it.index()),
                it.index() == it.seq().len() ==> out@ == it.seq().unref(),
                it.seq().unref().to_set() == self.entries@.dom(),
                it.seq().no_duplicates(),
        {
            out.push(*k);
            assert(out@ =~= it.seq().unref().take(it.index() + 1));
        }
        out
    }

    /// Returns the entries that are due for a retry at instant `now`, each
    /// once, in the order the queue's map is walked.
    #[verifier::rlimit(40)]
    pub fn get_entries_to_retry_at(&self, now: i64) -> (r: Vec<PendingSyncEntry>)
        requires
            queue_wf(self@),
        ensures
            retry_batch(self@.pending, now as int, views(r@)),
    {
        let ghost pending = self@.pending;
        let ks = self.pending_task_ids();
        let mut out: Vec<PendingSyncEntry> = Vec::new();
        let n = ks.len();
        for idx in 0..n
            invariant
                n == ks@.len(),
                pending == self@.pending,
                queue_wf(self@),
                ks@.to_set() == self.entries@.dom(),
                ks@.no_duplicates(),
                forall|i: int|
                    0 <= i < out@.len() ==> {
                        let e = (#[trigger] out@[i])@;
                        &&& pending.contains_key(e.task_id)
                        &&& pending[e.task_id] == e
                        &&& due_at(e, now as int)
                        &&& exists|j: int| 0 <= j < idx && ks@[j] == e.task_id
                    },
                forall|j: int|
                    0 <= j < idx && due_at(pending[#[trigger] ks@[j]], now as int) ==> exists|i: int|
                        0 <= i < out@.len() && (#[trigger] out@[i]).task_id == ks@[j],
                forall|a: int, b: int|
                    0 <= a < b < out@.len() ==> (#[trigger] out@[a]).task_id != (
                    #[trigger] out@[b]).task_id,
        {
            let k = ks[idx];
            let ghost out0 = out@;
            assert(ks@.to_set().contains(ks@[idx as int]));
            match self.entries.get(&k) {
                Some(e) => {
                    assert(pending.contains_key(k) && pending[k] == e@);
                    if e.should_retry_at(now) {
                        let c = e.copy();
                        proof {
                            assert forall|a: int| 0 <= a < out@.len() implies (
                            #[trigger] out@[a]).task_id != c.task_id by {
                                let j = choose|j: int| 0 <= j < idx && ks@[j] == out@[a]@.task_id;
                                assert(ks@[j] != ks@[idx as int]);
                            }
                        }
                        out.push(c);
                        proof {
                            assert(out@ == out0.push(c));
                            assert(out@[out@.len() - 1]@.task_id == ks@[idx as int]);
                        }
                    } else {
                        assert(!due_at(pending[ks@[idx as int]], now as int));
                    }
                },
                None => {},
            }
            proof {
                assert forall|j: int|
                    0 <= j < idx + 1 && due_at(pending[#[trigger] ks@[j]], now as int) implies exists|
                    i: int,
                | 0 <= i < out@.len() && (#[trigger] out@[i]).task_id == ks@[j] by {
                    if j < idx {
                        let i = choose|i: int|
                            0 <= i < out0.len() && (#[trigger] out0[i]).task_id == ks@[j];
                        assert(out@[i] == out0[i]);
                    } else {
                        assert(out@[out@.len() - 1].task_id == ks@[j]);
                    }
                }
                assert forall|i: int| 0 <= i < out@.len() implies exists|j: int|
                    0 <= j < idx + 1 && ks@[j] == (#[trigger] out@[i])@.task_id by {
                    if i < out0.len() {
                        assert(out@[i] == out0[i]);
                        let j = choose|j: int| 0 <= j < idx && ks@[j] == out0[i]@.task_id;
                    } else {
                        assert(ks@[idx as int] == out@[i]@.task_id);
                    }
                }
            }
        }
        proof {
            let ov = views(out@);
            assert forall|key: i64|
                #[trigger] pending.contains_key(key) && due_at(
                    pending[key],
                    now as int,
                ) implies exists|i: int| 0 <= i < ov.len() && (#[trigger] ov[i]).task_id == key by {
                assert(ks@.to_set().contains(key));
                let j = choose|j: int| 0 <= j < ks@.len() && ks@[j] == key;
                let i = choose|i: int| 0 <= i < out@.len() && (#[trigger] out@[i]).task_id == ks@[j];
                assert(ov[i].task_id == key);
            }
            assert forall|a: int, b: int|
                0 <= a < b < ov.len() implies (#[trigger] ov[a]).task_id != (
                #[trigger] ov[b]).task_id by {
                assert(out@[a].task_id != out@[b].task_id);
            }
            assert forall|i: int| 0 <= i < ov.len() implies pending.contains_key(
                (#[trigger] ov[i]).task_id,
            ) && pending[ov[i].task_id] == ov[i] && due_at(ov[i], now as int) by {
                assert(ov[i] == out@[i]@);
            }
        }
        out
    }

    /// Returns the entries that are due for a retry now.
    pub fn get_entries_to_retry(&self) -> (r: Vec<PendingSyncEntry>)
        requires
            queue_wf(self@),
        ensures
            exists|t: int|
                i64::MIN <= t <= i64::MAX && #[trigger] retry_batch(self@.pending, t, views(r@)),
    {
        self.get_entries_to_retry_at(now())
    }

    /// Marks a sync entry as successfully synced (removes it from the
    /// queue).
    pub fn mark_synced(&mut self, task_id: i64)
        requires
            queue_wf(old(self)@),
        ensures
            final(self)@ == synced_out(old(self)@, task_id),
            queue_wf(final(self)@),
    {
        proof {
            lemma_remove_wf(self@, task_id, self@.failed);
        }
        self.entries.remove(&task_id);
        assert(self@.pending =~= old(self)@.pending.remove(task_id));
    }

    /// Records a failed sync attempt at `now` for the task's entry; an
    /// entry out of retries moves to the failed list.
    pub fn record_failure_at(&mut self, task_id: i64, error: String, now: i64)
        requires
            queue_wf(old(self)@),
        ensures
            final(self)@ == failure_recorded(old(self)@, task_id, error@, now),
            queue_wf(final(self)@),
    {
        let found = match self.entries.get(&task_id) {
            Some(e) => Some(e.copy()),
            None => None,
        };
        if let Some(mut entry) = found {
            assert(old(self)@.pending.contains_key(task_id));
            assert(entry@ == old(self)@.pending[task_id]);
            entry.record_failure_at(error, now);
            if entry.is_exhausted() {
                proof {
                    lemma_remove_wf(self@, task_id, self@.failed.push(entry@));
                }
                self.entries.remove(&task_id);
                let ghost ev = entry@;
                self.failed_entries.push(entry);
                assert(self@.pending =~= old(self)@.pending.remove(task_id));
                assert(self@.failed =~= old(self)@.failed.push(ev));
            } else {
                proof {
                    lemma_insert_wf(self@, entry@);
                }
                self.put(entry);
            }
        }
    }

    /// Records a failed sync attempt now for the task's entry.
    pub fn record_failure(&mut self, task_id: i64, error: String)
        requires
            queue_wf(old(self)@),
        ensures
            exists|t: i64|
                final(self)@ == #[trigger] failure_recorded(old(self)@, task_id, error@, t),
            queue_wf(final(self)@),
    {
        self.record_failure_at(task_id, error, now());
    }

    /// Returns true if there are any pending entries.
    pub fn has_pending(&self) -> (b: bool)
        ensures
            b == (self@.pending.len() > 0),
    {
        assert(self@.pending.dom() =~= self.entries@.dom());
        self.entries.len() > 0
    }

    /// Returns the count of pending entries.
    pub fn pending_count(&self) -> (n: usize)
        ensures
            n == self@.pending.len(),
    {
        assert(self@.pending.dom() =~= self.entries@.dom());
        self.entries.len()
    }

    /// Returns the count of failed entries (exceeded max retries).
    pub fn failed_count(&self) -> (n: usize)
        ensures
            n == self@.failed.len(),
    {
        self.failed_entries.len()
    }

    /// Clears all pending entries (use with caution!). Failed entries stay.
    pub fn clear(&mut self)
        ensures
            final(self)@ == (QueueView {
                pending: Map::<i64, PendingView>::empty(),
                ..old(self)@
            }),
            queue_wf(final(self)@),
    {
        self.entries.clear();
        assert(self@.pending =~= Map::<i64, PendingView>::empty());
    }

    /// Moves all failed entries back to the pending queue with their
    /// retries reset, in the order they failed (a later entry of the same
    /// task replaces an earlier one).
    pub fn retry_failed(&mut self)
        requires
            queue_wf(old(self)@),
        ensures
            final(self)@ == (QueueView {
                pending: requeued(old(self)@.pending, old(self)@.failed),
                failed: Seq::<PendingView>::empty(),
            }),
            queue_wf(final(self)@),
    {
        let ghost fs = self@.failed;
        let mut failed: Vec<PendingSyncEntry> = Vec::new();
        std::mem::swap(&mut failed, &mut self.failed_entries);
        assert(failed@.map_values(|e: PendingSyncEntry| e@) == fs);
        let n = failed.len();
        for i in 0..n
            invariant
                n == fs.len(),
                fs == failed@.map_values(|e: PendingSyncEntry| e@),
                self@.pending == requeued(old(self)@.pending, fs.take(i as int)),
                self@.failed == Seq::<PendingView>::empty(),
                queue_wf(self@),
        {
            let mut entry = failed[i].copy();
            entry.retry_count = 0;
            entry.last_attempt_at = None;
            entry.last_error = None;
            assert(entry@ == reset(fs[i as int]));
            assert(fs.take(i as int + 1).drop_last() =~= fs.take(i as int));
            proof {
                lemma_insert_wf(self@, entry@);
            }
            self.put(entry);
        }
        assert(fs.take(n as int) =~= fs);
        assert(self@.failed =~= Seq::<PendingView>::empty());
    }

    /// Loads a queue from saved entries: each saved pending entry is put
    /// in as its task's entry, in order; one out of retries joins the
    /// failed list instead.
    pub fn restore(entries: Vec<PendingSyncEntry>, failed_entries: Vec<PendingSyncEntry>) -> (q: Self)
        ensures
            q@ == restored(
                QueueView {
                    pending: Map::<i64, PendingView>::empty(),
                    failed: failed_entries@.map_values(|e: PendingSyncEntry| e@),
                },
                entries@.map_values(|e: PendingSyncEntry| e@),
            ),
            queue_wf(q@),
    {
        let ghost es = entries@.map_values(|e: PendingSyncEntry| e@);
        let mut q = SyncQueue { entries: HashMap::new(), failed_entries };
        assert(q@.pending =~= Map::<i64, PendingView>::empty());
        let ghost q0 = q@;
        let n = entries.len();
        for i in 0..n
            invariant
                n == es.len(),
                es == entries@.map_values(|e: PendingSyncEntry| e@),
                q@ == restored(q0, es.take(i as int)),
                queue_wf(q@),
        {
            let e = entries[i].copy();
            assert(es.take(i as int + 1).drop_last() =~= es.take(i as int));
            if e.is_exhausted() {
                let ghost ev = e@;
                q.failed_entries.push(e);
                assert(q@.failed =~= restored(q0, es.take(i as int)).failed.push(ev));
            } else {
                proof {
                    lemma_insert_wf(q@, e@);
                }
                q.put(e);
            }
        }
        assert(es.take(n as int) =~= es);
        q
    }

    /// The state of the queue at instant `now`: the counts, whether any
    /// entry is pending or failed, and the last error among the entries
    /// due for a retry, in the order the queue's map is walked.
    pub fn sync_status_at(&self, now: i64) -> (s: SyncQueueStatus)
        requires
            queue_wf(self@),
        ensures
            s.pending_count == self@.pending.len(),
            s.failed_count == self@.failed.len(),
            s.has_errors == (self@.pending.len() > 0 || self@.failed.len() > 0),
            exists|due_entries: Seq<PendingView>|
                #[trigger] retry_batch(self@.pending, now as int, due_entries) && opt_view(
                    s.last_error,
                ) == last_error_of(due_entries),
    {
        let pending_count = self.pending_count();
        let failed_count = self.failed_count();
        let due_entries = self.get_entries_to_retry_at(now);
        let ghost ds = views(due_entries@);
        let mut last_error: Option<String> = None;
        let n = due_entries.len();
        for i in 0..n
            invariant
                n == ds.len(),
                ds == views(due_entries@),
                opt_view(last_error) == last_error_of(ds.take(i as int)),
        {
            assert(ds.take(i as int + 1).drop_last() =~= ds.take(i as int));
            match &due_entries[i].last_error {
                Some(e) => {
                    last_error = Some(e.clone());
                },
                None => {},
            }
        }
        assert(ds.take(n as int) =~= ds);
        SyncQueueStatus {
            pending_count,
            failed_count,
            has_errors: failed_count > 0 || pending_count > 0,
            last_error,
        }
    }

    /// The state of the queue now.
    pub fn sync_status(&self) -> (s: SyncQueueStatus)
        requires
            queue_wf(self@),
        ensures
            s.pending_count == self@.pending.len(),
            s.failed_count == self@.failed.len(),
            s.has_errors == (self@.pending.len() > 0 || self@.failed.len() > 0),
            exists|t: int, due_entries: Seq<PendingView>|
                i64::MIN <= t <= i64::MAX && #[trigger] retry_batch(self@.pending, t, due_entries)
                    && opt_view(s.last_error) == last_error_of(due_entries),
    {
        self.sync_status_at(now())
    }
}

/// The backoff starts at the base delay and doubles with each failure
/// until it reaches the cap.
pub proof fn law_backoff_doubles_until_cap(n: nat)
    ensures
        backoff_delay(0) == BASE_RETRY_DELAY_SECS,
        backoff_delay(n + 1) == if 2 * backoff_delay(n) > MAX_RETRY_DELAY_SECS {
            MAX_RETRY_DELAY_SECS as int
        } else {
            2 * backoff_delay(n)
        },
        0 < backoff_delay(n) <= backoff_delay(n + 1) <= MAX_RETRY_DELAY_SECS,
{
    assert(two_pow(n + 1) == 2 * two_pow(n));
    lemma_two_pow_monotone(0, n);
}

/// An entry that is due stays due as time goes on; an entry with retries
/// left that was never attempted is due at any time; an entry out of
/// retries never is.
pub proof fn law_due_is_monotone_in_time(e: PendingView, t: int, later: int)
    requires
        t <= later,
    ensures
        due_at(e, t) ==> due_at(e, later),
        !exhausted(e) && e.last_attempt_at is None ==> due_at(e, t),
        exhausted(e) ==> !due_at(e, t),
{
}

/// After `enqueue`, the task's pending entry is the new one, and every
/// other task's entry is as it was.
pub proof fn law_enqueue_keeps_latest_entry(q: QueueView, e: PendingView)
    requires
        queue_wf(q),
        !exhausted(e),
    ensures
        queue_wf(enqueued(q, e)),
        enqueued(q, e).pending.contains_key(e.task_id),
        enqueued(q, e).pending[e.task_id] == e,
        forall|k: i64|
            k != e.task_id ==> (#[trigger] enqueued(q, e).pending.contains_key(k)
                == q.pending.contains_key(k) && enqueued(q, e).pending[k] == q.pending[k]),
        enqueued(q, e).failed == q.failed,
{
    lemma_insert_wf(q, e);
}

/// After a successful sync of a task, nothing of it is pending any more,
/// and every other task's entry is as it was.
pub proof fn law_synced_task_leaves_queue(q: QueueView, task_id: i64)
    requires
        queue_wf(q),
    ensures
        queue_wf(synced_out(q, task_id)),
        !synced_out(q, task_id).pending.contains_key(task_id),
        forall|k: i64|
            k != task_id ==> (#[trigger] synced_out(q, task_id).pending.contains_key(k)
                == q.pending.contains_key(k) && synced_out(q, task_id).pending[k] == q.pending[k]),
{
    lemma_remove_wf(q, task_id, q.failed);
}

/// A failed attempt loses no entry: the pending and failed entries
/// together stay as many; the entry moves to the failed list exactly when
/// this was its last retry.
pub proof fn law_failure_keeps_every_entry(q: QueueView, task_id: i64, error: Seq<char>, now: i64)
    requires
        queue_wf(q),
    ensures
        queue_wf(failure_recorded(q, task_id, error, now)),
        failure_recorded(q, task_id, error, now).pending.len() + failure_recorded(
            q,
            task_id,
            error,
            now,
        ).failed.len() == q.pending.len() + q.failed.len(),
        q.pending.contains_key(task_id) ==> (failure_recorded(
            q,
            task_id,
            error,
            now,
        ).failed.len() == q.failed.len() + 1 <==> q.pending[task_id].retry_count + 1
            == MAX_RETRY_ATTEMPTS),
{
    if q.pending.contains_key(task_id) {
        let e = failed_once(q.pending[task_id], error, now);
        if exhausted(e) {
            lemma_remove_wf(q, task_id, q.failed.push(e));
            assert(q.pending.remove(task_id).dom() =~= q.pending.dom().remove(task_id));
        } else {
            lemma_insert_wf(q, e);
            assert(q.pending.insert(task_id, e).dom() =~= q.pending.dom());
        }
    }
}

/// Loading what a queue holds gives the queue back: restoring a list of its
/// pending entries (in any order, each listed at least once) next to its
/// failed ones reproduces it exactly.
pub proof fn law_restore_reproduces_queue(q: QueueView, saved: Seq<PendingView>)
    requires
        queue_wf(q),
        forall|i: int|
            0 <= i < saved.len() ==> q.pending.contains_key((#[trigger] saved[i]).task_id)
                && q.pending[saved[i].task_id] == saved[i],
        forall|k: i64|
            #[trigger] q.pending.contains_key(k) ==> exists|i: int|
                0 <= i < saved.len() && (#[trigger] saved[i]).task_id == k,
    ensures
        restored(QueueView { pending: Map::empty(), failed: q.failed }, saved) == q,
{
    let q0 = QueueView { pending: Map::<i64, PendingView>::empty(), failed: q.failed };
    lemma_restored_prefix(q, saved, saved.len() as int);
    let r = restored(q0, saved);
    assert(saved.take(saved.len() as int) =~= saved);
    assert forall|k: i64| #[trigger] r.pending.contains_key(k) <==> q.pending.contains_key(k) by {
        if q.pending.contains_key(k) {
            let i = choose|i: int| 0 <= i < saved.len() && (#[trigger] saved[i]).task_id == k;
            assert(saved.take(saved.len() as int)[i] == saved[i]);
        }
    }
    assert(r.pending =~= q.pending);
}

/// Restoring the first `n` saved entries: the failed list stays, and the
/// pending entries are those of the tasks listed so far, as `q` holds them.
proof fn lemma_restored_prefix(q: QueueView, saved: Seq<PendingView>, n: int)
    requires
        queue_wf(q),
        0 <= n <= saved.len(),
        forall|i: int|
            0 <= i < saved.len() ==> q.pending.contains_key((#[trigger] saved[i]).task_id)
                && q.pending[saved[i].task_id] == saved[i],
    ensures
        ({
            let r = restored(
                QueueView { pending: Map::<i64, PendingView>::empty(), failed: q.failed },
                saved.take(n),
            );
            &&& r.failed == q.failed
            &&& forall|k: i64|
                #[trigger] r.pending.contains_key(k) <==> exists|i: int|
                    0 <= i < n && (#[trigger] saved[i]).task_id == k
            &&& forall|k: i64| #[trigger] r.pending.contains_key(k) ==> r.pending[k] == q.pending[k]
        }),
    decreases n,
{
    let q0 = QueueView { pending: Map::<i64, PendingView>::empty(), failed: q.failed };
    if n == 0 {
        assert(saved.take(0) =~= Seq::<PendingView>::empty());
    } else {
        lemma_restored_prefix(q, saved, n - 1);
        assert(saved.take(n).drop_last() =~= saved.take(n - 1));
        assert(saved.take(n).last() == saved[n - 1]);
        let e = saved[n - 1];
        assert(q.pending.contains_key(e.task_id));
        assert(!exhausted(e));
        let r = restored(q0, saved.take(n));
        let rp = restored(q0, saved.take(n - 1));
        assert(r.pending == rp.pending.insert(e.task_id, e));
        assert forall|k: i64| #[trigger] r.pending.contains_key(k) <==> exists|i: int|
            0 <= i < n && (#[trigger] saved[i]).task_id == k by {
            if r.pending.contains_key(k) && k != e.task_id {
                assert(rp.pending.contains_key(k));
                let i = choose|i: int| 0 <= i < n - 1 && (#[trigger] saved[i]).task_id == k;
                assert(0 <= i < n && saved[i].task_id == k);
            }
            if exists|i: int| 0 <= i < n && (#[trigger] saved[i]).task_id == k {
                let i = choose|i: int| 0 <= i < n && (#[trigger] saved[i]).task_id == k;
                if i < n - 1 {
                    assert(rp.pending.contains_key(k));
                }
            }
        }
    }
}

} // verus!
