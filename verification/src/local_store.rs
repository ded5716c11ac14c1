//! Persistent local storage for time entries, supporting offline operation.
//!
//! A time entry is "running" while it has no stop time. Each task has at
//! most one running entry: starting a task reuses its running entry. The
//! store is kept in memory here; the caller persists it after each change.

use vstd::prelude::*;

use crate::clock::rfc3339_text;
use crate::models::clone_opt_string;
use crate::seqs::{first_match, last_match, keep, lemma_first_match_at, lemma_first_match_props,
    lemma_keep_step, lemma_last_match_at};

verus! {

/// Maximum number of timestamps to retain per entry.
pub const MAX_TIMESTAMPS_PER_ENTRY: usize = 200;

/// Represents a single timestamp recording for crash recovery.
#[derive(Debug, Clone, Default)]
pub struct TimeStamp {
    pub timestamp: String,
    pub elapsed_secs: i64,
}

/// A local time entry that may or may not be synced to the server.
#[derive(Debug, Clone, Default)]
pub struct LocalTimeEntry {
    pub task_id: i64,
    pub client_started_at: String,
    pub client_stopped_at: Option<String>,
    pub synced: bool,
    /// Track what was last synced to avoid re-syncing same data
    pub last_synced_elapsed: i64,
    pub timestamps: Vec<TimeStamp>,
}

/// Everything the store holds.
#[derive(Debug, Clone, Default)]
pub struct LocalTimeStore {
    pub entries: Vec<LocalTimeEntry>,
    pub last_sync_at: Option<String>,
    pub was_running: bool,
    pub last_running_task_id: Option<i64>,
    pub auth_token: Option<String>,
}

/// The store of time entries.
pub struct LocalTimeStorage {
    pub store: LocalTimeStore,
}

/// An optional string by its characters.
pub open spec fn opt_view(o: Option<String>) -> Option<Seq<char>> {
    match o {
        Some(s) => Some(s@),
        None => None,
    }
}

/// A timestamp recording: its RFC 3339 text and the elapsed seconds.
pub type StampView = (Seq<char>, i64);

/// A time entry as plain values.
pub struct EntryView {
    pub task_id: i64,
    pub client_started_at: Seq<char>,
    pub client_stopped_at: Option<Seq<char>>,
    pub synced: bool,
    pub last_synced_elapsed: i64,
    pub timestamps: Seq<StampView>,
}

/// The store as plain values.
pub struct StoreView {
    pub entries: Seq<EntryView>,
    pub last_sync_at: Option<Seq<char>>,
    pub was_running: bool,
    pub last_running_task_id: Option<i64>,
    pub auth_token: Option<Seq<char>>,
}

impl View for TimeStamp {
    type V = StampView;

    open spec fn view(&self) -> StampView {
        (self.timestamp@, self.elapsed_secs)
    }
}

impl View for LocalTimeEntry {
    type V = EntryView;

    open spec fn view(&self) -> EntryView {
        EntryView {
            task_id: self.task_id,
            client_started_at: self.client_started_at@,
            client_stopped_at: opt_view(self.client_stopped_at),
            synced: self.synced,
            last_synced_elapsed: self.last_synced_elapsed,
            timestamps: self.timestamps@.map_values(|t: TimeStamp| t@),
        }
    }
}

impl View for LocalTimeStore {
    type V = StoreView;

    open spec fn view(&self) -> StoreView {
        StoreView {
            entries: self.entries@.map_values(|e: LocalTimeEntry| e@),
            last_sync_at: opt_view(self.last_sync_at),
            was_running: self.was_running,
            last_running_task_id: self.last_running_task_id,
            auth_token: opt_view(self.auth_token),
        }
    }
}

/// Whether an entry still runs (has no stop time).
pub open spec fn entry_running(e: EntryView) -> bool {
    e.client_stopped_at is None
}

/// Whether an entry has time the server has not seen: a recorded elapsed
/// time beyond the last synced one, or a stop not yet synced.
pub open spec fn entry_unsynced(e: EntryView) -> bool {
    e.timestamps.len() > 0 && (e.timestamps.last().1 > e.last_synced_elapsed
        || e.client_stopped_at is Some)
}

/// The running entry of a task.
pub open spec fn running_of(task_id: i64) -> spec_fn(EntryView) -> bool {
    |e: EntryView| e.task_id == task_id && e.client_stopped_at is None
}

/// Any entry of a task.
pub open spec fn of_task(task_id: i64) -> spec_fn(EntryView) -> bool {
    |e: EntryView| e.task_id == task_id
}

/// A stopped entry of a task.
pub open spec fn stopped_of(task_id: i64) -> spec_fn(EntryView) -> bool {
    |e: EntryView| e.task_id == task_id && e.client_stopped_at is Some
}

/// Entries that survive a cleanup: unsynced ones and running ones.
pub open spec fn kept_by_cleanup() -> spec_fn(EntryView) -> bool {
    |e: EntryView| !e.synced || e.client_stopped_at is None
}

/// Whether an entry needs syncing: its last recorded elapsed time is beyond
/// the last synced one, or it was stopped and that stop is not synced yet.
pub open spec fn entry_to_sync(e: EntryView) -> bool {
    ||| e.timestamps.len() > 0 && e.timestamps.last().1 > e.last_synced_elapsed
    ||| e.client_stopped_at is Some && !e.synced
}

/// Entries that need syncing.
pub open spec fn needs_sync() -> spec_fn(EntryView) -> bool {
    |e: EntryView| entry_to_sync(e)
}

/// Running entries.
pub open spec fn running_entry() -> spec_fn(EntryView) -> bool {
    |e: EntryView| entry_running(e)
}

/// A new running entry for a task.
pub open spec fn fresh_entry(task_id: i64, started_at: Seq<char>) -> EntryView {
    EntryView {
        task_id,
        client_started_at: started_at,
        client_stopped_at: None,
        synced: false,
        last_synced_elapsed: 0,
        timestamps: Seq::empty(),
    }
}

/// The store after `start_timer(task_id, started_at)`: the task's running
/// entry restarts (and needs syncing again), or a new one is added.
pub open spec fn started(st: StoreView, task_id: i64, started_at: Seq<char>) -> StoreView {
    StoreView {
        entries: match first_match(st.entries, running_of(task_id)) {
            Some(i) => st.entries.update(
                i,
                EntryView { client_started_at: started_at, synced: false, ..st.entries[i] },
            ),
            None => st.entries.push(fresh_entry(task_id, started_at)),
        },
        was_running: true,
        last_running_task_id: Some(task_id),
        ..st
    }
}

/// Timestamps after one more recording, dropping the oldest beyond the
/// retention limit.
pub open spec fn stamped(ts: Seq<StampView>, s: StampView) -> Seq<StampView> {
    if ts.len() + 1 > MAX_TIMESTAMPS_PER_ENTRY {
        ts.push(s).drop_first()
    } else {
        ts.push(s)
    }
}

/// The store after a timestamp recording for a task's running entry.
pub open spec fn timestamp_added(st: StoreView, task_id: i64, s: StampView) -> StoreView {
    match first_match(st.entries, running_of(task_id)) {
        Some(i) => StoreView {
            entries: st.entries.update(
                i,
                EntryView { timestamps: stamped(st.entries[i].timestamps, s), ..st.entries[i] },
            ),
            ..st
        },
        None => st,
    }
}

/// The store after the task's running entry stops at `stopped_at`.
pub open spec fn stopped(st: StoreView, task_id: i64, stopped_at: Seq<char>) -> StoreView {
    StoreView {
        entries: match first_match(st.entries, running_of(task_id)) {
            Some(i) => st.entries.update(
                i,
                EntryView { client_stopped_at: Some(stopped_at), synced: false, ..st.entries[i] },
            ),
            None => st.entries,
        },
        was_running: false,
        ..st
    }
}

/// The store after a sync of `synced_elapsed` seconds for a task: its first
/// entry leaves the store when it was stopped, and otherwise records the
/// synced seconds and stays unsynced so that syncing continues; when the
/// task had a stopped entry the running state is cleared.
pub open spec fn synced(st: StoreView, task_id: i64, synced_elapsed: i64) -> StoreView {
    let entries = match first_match(st.entries, of_task(task_id)) {
        Some(i) => if st.entries[i].client_stopped_at is Some {
            st.entries.remove(i)
        } else {
            st.entries.update(
                i,
                EntryView { synced: false, last_synced_elapsed: synced_elapsed, ..st.entries[i] },
            )
        },
        None => st.entries,
    };
    if first_match(st.entries, stopped_of(task_id)) is Some {
        StoreView { entries, was_running: false, last_running_task_id: None, ..st }
    } else {
        StoreView { entries, ..st }
    }
}

impl TimeStamp {
    /// An exact copy.
    pub fn copy(&self) -> (t: TimeStamp)
        ensures
            t@ == self@,
    {
        TimeStamp { timestamp: self.timestamp.clone(), elapsed_secs: self.elapsed_secs }
    }
}

impl LocalTimeEntry {
    /// Returns `true` if this entry has unsynced time.
    pub fn has_unsynced_time(&self) -> (r: bool)
        ensures
            r == entry_unsynced(self@),
    {
        if self.timestamps.len() == 0 {
            return false;
        }
        let current_elapsed = self.timestamps[self.timestamps.len() - 1].elapsed_secs;
        current_elapsed > self.last_synced_elapsed || self.client_stopped_at.is_some()
    }

    /// Whether the entry needs syncing: new elapsed time since the last
    /// sync, or a stop not yet synced.
    fn needs_syncing(&self) -> (r: bool)
        ensures
            r == entry_to_sync(self@),
    {
        let n = self.timestamps.len();
        (n > 0 && self.timestamps[n - 1].elapsed_secs > self.last_synced_elapsed) || (
        self.client_stopped_at.is_some() && !self.synced)
    }

    /// Returns `true` if the timer is still running (not stopped).
    pub fn is_running(&self) -> (r: bool)
        ensures
            r == entry_running(self@),
    {
        self.client_stopped_at.is_none()
    }

    /// An exact copy.
    pub fn copy(&self) -> (e: LocalTimeEntry)
        ensures
            e@ == self@,
    {
        let mut timestamps: Vec<TimeStamp> = Vec::new();
        let n = self.timestamps.len();
        for i in 0..n
            invariant
                n == self.timestamps@.len(),
                timestamps@.len() == i,
                forall|j: int| 0 <= j < i ==> #[trigger] timestamps@[j]@ == self.timestamps@[j]@,
        {
            timestamps.push(self.timestamps[i].copy());
        }
        assert(timestamps@.map_values(|t: TimeStamp| t@) =~= self.timestamps@.map_values(
            |t: TimeStamp| t@,
        ));
        LocalTimeEntry {
            task_id: self.task_id,
            client_started_at: self.client_started_at.clone(),
            client_stopped_at: clone_opt_string(&self.client_stopped_at),
            synced: self.synced,
            last_synced_elapsed: self.last_synced_elapsed,
            timestamps,
        }
    }
}

impl LocalTimeStorage {
    /// A storage holding `store` (as loaded from disk, or empty).
    pub fn with_store(store: LocalTimeStore) -> (s: Self)
        ensures
            s.store@ == store@,
    {
        LocalTimeStorage { store }
    }

    /// The index of the first entry for which `p` holds of its view.
    fn find_running(&self, task_id: i64) -> (i: Option<usize>)
        ensures
            match i {
                Some(k) => k < self.store@.entries.len() && first_match(
                    self.store@.entries,
                    running_of(task_id),
                ) == Some(k as int),
                None => first_match(self.store@.entries, running_of(task_id)) is None,
            },
    {
        let ghost es = self.store@.entries;
        let n = self.store.entries.len();
        let mut i: usize = 0;
        while i < n
            invariant
                n == es.len(),
                es == self.store@.entries,
                0 <= i <= n,
                forall|j: int| 0 <= j < i ==> !running_of(task_id)(#[trigger] es[j]),
            decreases n - i,
        {
            let e = &self.store.entries[i];
            if e.task_id == task_id && e.client_stopped_at.is_none() {
                proof {
                    lemma_first_match_at(es, running_of(task_id), i as int);
                }
                return Some(i);
            }
            i = i + 1;
        }
        proof {
            lemma_first_match_props(es, running_of(task_id));
        }
        None
    }

    fn find_task(&self, task_id: i64) -> (i: Option<usize>)
        ensures
            match i {
                Some(k) => k < self.store@.entries.len() && first_match(
                    self.store@.entries,
                    of_task(task_id),
                ) == Some(k as int),
                None => first_match(self.store@.entries, of_task(task_id)) is None,
            },
    {
        let ghost es = self.store@.entries;
        let n = self.store.entries.len();
        let mut i: usize = 0;
        while i < n
            invariant
                n == es.len(),
                es == self.store@.entries,
                0 <= i <= n,
                forall|j: int| 0 <= j < i ==> !of_task(task_id)(#[trigger] es[j]),
            decreases n - i,
        {
            if self.store.entries[i].task_id == task_id {
                proof {
                    lemma_first_match_at(es, of_task(task_id), i as int);
                }
                return Some(i);
            }
            i = i + 1;
        }
        proof {
            lemma_first_match_props(es, of_task(task_id));
        }
        None
    }

    fn find_stopped(&self, task_id: i64) -> (found: bool)
        ensures
            found == first_match(self.store@.entries, stopped_of(task_id)) is Some,
    {
        let ghost es = self.store@.entries;
        let n = self.store.entries.len();
        let mut i: usize = 0;
        while i < n
            invariant
                n == es.len(),
                es == self.store@.entries,
                0 <= i <= n,
                forall|j: int| 0 <= j < i ==> !stopped_of(task_id)(#[trigger] es[j]),
            decreases n - i,
        {
            let e = &self.store.entries[i];
            if e.task_id == task_id && e.client_stopped_at.is_some() {
                proof {
                    lemma_first_match_at(es, stopped_of(task_id), i as int);
                }
                return true;
            }
            i = i + 1;
        }
        proof {
            lemma_first_match_props(es, stopped_of(task_id));
        }
        false
    }

    fn replace_entry(&mut self, i: usize, e: LocalTimeEntry)
        requires
            i < old(self).store.entries@.len(),
        ensures
            final(self).store@ == (StoreView {
                entries: old(self).store@.entries.update(i as int, e@),
                ..old(self).store@
            }),
    {
        self.store.entries.set(i, e);
        assert(self.store@.entries =~= old(self).store@.entries.update(i as int, e@));
    }

    /// Starts (or restarts) the task's running entry at `started_at`.
    pub fn start_timer(&mut self, task_id: i64, started_at: String)
        ensures
            final(self).store@ == started(old(self).store@, task_id, started_at@),
    {
        let ghost at = started_at@;
        match self.find_running(task_id) {
            Some(i) => {
                let mut e = self.store.entries[i].copy();
                e.client_started_at = started_at;
                e.synced = false;
                assert(e@ == EntryView {
                    client_started_at: at,
                    synced: false,
                    ..old(self).store@.entries[i as int]
                });
                self.replace_entry(i, e);
            },
            None => {
                let e = LocalTimeEntry {
                    task_id,
                    client_started_at: started_at,
                    client_stopped_at: None,
                    synced: false,
                    last_synced_elapsed: 0,
                    timestamps: Vec::new(),
                };
                assert(e@.timestamps =~= Seq::<StampView>::empty());
                assert(e@ == fresh_entry(task_id, at));
                self.store.entries.push(e);
                assert(self.store@.entries =~= old(self).store@.entries.push(
                    fresh_entry(task_id, at),
                ));
            },
        }
        self.store.was_running = true;
        self.store.last_running_task_id = Some(task_id);
    }

    /// Records `elapsed_secs` at `timestamp` for the task's running entry,
    /// keeping at most the last `MAX_TIMESTAMPS_PER_ENTRY` recordings.
    pub fn add_timestamp_at(&mut self, task_id: i64, elapsed_secs: i64, timestamp: String)
        ensures
            final(self).store@ == timestamp_added(
                old(self).store@,
                task_id,
                (timestamp@, elapsed_secs),
            ),
    {
        if let Some(i) = self.find_running(task_id) {
            let mut e = self.store.entries[i].copy();
            let ghost ts0 = e@.timestamps;
            e.timestamps.push(TimeStamp { timestamp, elapsed_secs });
            if e.timestamps.len() > MAX_TIMESTAMPS_PER_ENTRY {
                e.timestamps.remove(0);
            }
            assert(e@.timestamps =~= stamped(ts0, (timestamp@, elapsed_secs)));
            self.replace_entry(i, e);
        }
    }

    /// Records `elapsed_secs` now for the task's running entry.
    pub fn add_timestamp(&mut self, task_id: i64, elapsed_secs: i64)
        ensures
            exists|t: i64|
                timestamp_added(old(self).store@, task_id, (#[trigger] rfc3339_text(t), elapsed_secs))
                    == final(self).store@,
    {
        let t = crate::clock::now_rfc3339();
        self.add_timestamp_at(task_id, elapsed_secs, t);
    }

    /// Stops the task's running entry at `stopped_at`; the store no longer
    /// counts as running.
    pub fn stop_timer(&mut self, task_id: i64, stopped_at: String)
        ensures
            final(self).store@ == stopped(old(self).store@, task_id, stopped_at@),
    {
        if let Some(i) = self.find_running(task_id) {
            let mut e = self.store.entries[i].copy();
            e.client_stopped_at = Some(stopped_at);
            e.synced = false;
            self.replace_entry(i, e);
        }
        self.store.was_running = false;
    }

    /// Mark entry as synced and record the elapsed time that was synced.
    /// For stopped entries, remove them. For running entries, keep them but
    /// update `last_synced_elapsed`.
    pub fn mark_synced(&mut self, task_id: i64, synced_elapsed: i64)
        ensures
            final(self).store@ == synced(old(self).store@, task_id, synced_elapsed),
    {
        let any_stopped = self.find_stopped(task_id);
        if let Some(i) = self.find_task(task_id) {
            if self.store.entries[i].client_stopped_at.is_some() {
                self.store.entries.remove(i);
                assert(self.store@.entries =~= old(self).store@.entries.remove(i as int));
            } else {
                let mut e = self.store.entries[i].copy();
                e.synced = false;
                e.last_synced_elapsed = synced_elapsed;
                self.replace_entry(i, e);
            }
        }
        if any_stopped {
            self.store.was_running = false;
            self.store.last_running_task_id = None;
        }
    }

    /// Clean up old synced entries that are completed (stopped and synced).
    pub fn cleanup_completed_entries(&mut self)
        ensures
            final(self).store@ == (StoreView {
                entries: keep(old(self).store@.entries, kept_by_cleanup()),
                ..old(self).store@
            }),
    {
        let ghost es = self.store@.entries;
        let mut kept: Vec<LocalTimeEntry> = Vec::new();
        let n = self.store.entries.len();
        for i in 0..n
            invariant
                n == es.len(),
                es == self.store@.entries,
                kept@.map_values(|e: LocalTimeEntry| e@) == keep(
                    es.take(i as int),
                    kept_by_cleanup(),
                ),
        {
            proof {
                lemma_keep_step(es, kept_by_cleanup(), i as int);
            }
            let e = &self.store.entries[i];
            if !e.synced || e.client_stopped_at.is_none() {
                let c = e.copy();
                kept.push(c);
                assert(kept@.map_values(|e: LocalTimeEntry| e@) =~= keep(
                    es.take(i as int),
                    kept_by_cleanup(),
                ).push(es[i as int]));
            }
        }
        assert(es.take(n as int) =~= es);
        self.store.entries = kept;
    }

    /// Same as `start_timer`.
    pub fn set_running(&mut self, task_id: i64, started_at: String)
        ensures
            final(self).store@ == started(old(self).store@, task_id, started_at@),
    {
        self.start_timer(task_id, started_at);
    }

    /// Stops the task's running entry now; the store no longer counts as
    /// running.
    pub fn set_stopped(&mut self, task_id: i64)
        ensures
            exists|t: i64|
                stopped(old(self).store@, task_id, #[trigger] rfc3339_text(t)) == final(self).store@,
    {
        let t = crate::clock::now_rfc3339();
        self.stop_timer(task_id, t);
    }

    pub fn was_running(&self) -> (r: bool)
        ensures
            r == self.store.was_running,
    {
        self.store.was_running
    }

    pub fn get_last_running_task_id(&self) -> (r: Option<i64>)
        ensures
            r == self.store.last_running_task_id,
    {
        self.store.last_running_task_id
    }

    pub fn clear_running_state(&mut self)
        ensures
            final(self).store@ == (StoreView {
                was_running: false,
                last_running_task_id: None,
                ..old(self).store@
            }),
    {
        self.store.was_running = false;
        self.store.last_running_task_id = None;
    }

    pub fn set_auth_token(&mut self, token: String)
        ensures
            final(self).store@ == (StoreView { auth_token: Some(token@), ..old(self).store@ }),
    {
        self.store.auth_token = Some(token);
    }

    pub fn get_auth_token(&self) -> (r: Option<String>)
        ensures
            r == self.store.auth_token,
    {
        clone_opt_string(&self.store.auth_token)
    }

    pub fn clear_auth_token(&mut self)
        ensures
            final(self).store@ == (StoreView { auth_token: None, ..old(self).store@ }),
    {
        self.store.auth_token = None;
    }

    /// Get entries that need syncing, in store order: those with more
    /// elapsed time than was last synced, and those stopped but not yet
    /// synced.
    pub fn get_entries_to_sync(&self) -> (r: Vec<LocalTimeEntry>)
        ensures
            r@.map_values(|e: LocalTimeEntry| e@) == keep(self.store@.entries, needs_sync()),
    {
        let ghost es = self.store@.entries;
        let mut out: Vec<LocalTimeEntry> = Vec::new();
        let n = self.store.entries.len();
        for i in 0..n
            invariant
                n == es.len(),
                es == self.store@.entries,
                out@.map_values(|e: LocalTimeEntry| e@) == keep(es.take(i as int), needs_sync()),
        {
            proof {
                lemma_keep_step(es, needs_sync(), i as int);
            }
            let e = &self.store.entries[i];
            if e.needs_syncing() {
                let c = e.copy();
                out.push(c);
                assert(out@.map_values(|e: LocalTimeEntry| e@) =~= keep(
                    es.take(i as int),
                    needs_sync(),
                ).push(es[i as int]));
            }
        }
        assert(es.take(n as int) =~= es);
        out
    }

    /// Alias for `get_entries_to_sync`.
    pub fn get_unsynced_entries(&self) -> (r: Vec<LocalTimeEntry>)
        ensures
            r@.map_values(|e: LocalTimeEntry| e@) == keep(self.store@.entries, needs_sync()),
    {
        self.get_entries_to_sync()
    }

    /// The most recent running entry, if any.
    pub fn get_last_running_entry(&self) -> (r: Option<LocalTimeEntry>)
        ensures
            match last_match(self.store@.entries, running_entry()) {
                Some(i) => (r matches Some(e) && e@ == self.store@.entries[i]),
                None => r is None,
            },
    {
        let ghost es = self.store@.entries;
        let n = self.store.entries.len();
        let mut i: usize = n;
        while i > 0
            invariant
                n == es.len(),
                es == self.store@.entries,
                0 <= i <= n,
                forall|j: int| i <= j < n ==> !running_entry()(#[trigger] es[j]),
            decreases i,
        {
            i = i - 1;
            if self.store.entries[i].client_stopped_at.is_none() {
                proof {
                    lemma_last_match_at(es, running_entry(), i as int);
                }
                return Some(self.store.entries[i].copy());
            }
        }
        assert(!(exists|k: int| 0 <= k < es.len() && running_entry()(es[k])));
        None
    }

    /// The task's running entry, if any.
    pub fn get_entry(&self, task_id: i64) -> (r: Option<LocalTimeEntry>)
        ensures
            match first_match(self.store@.entries, running_of(task_id)) {
                Some(i) => (r matches Some(e) && e@ == self.store@.entries[i]),
                None => r is None,
            },
    {
        match self.find_running(task_id) {
            Some(i) => Some(self.store.entries[i].copy()),
            None => None,
        }
    }

    /// Records `at` as the time of the last sync.
    pub fn update_last_sync_at(&mut self, at: String)
        ensures
            final(self).store@ == (StoreView { last_sync_at: Some(at@), ..old(self).store@ }),
    {
        self.store.last_sync_at = Some(at);
    }

    /// Records now as the time of the last sync.
    pub fn update_last_sync(&mut self)
        ensures
            exists|t: i64|
                final(self).store@ == (StoreView {
                    last_sync_at: Some(#[trigger] rfc3339_text(t)),
                    ..old(self).store@
                }),
    {
        let t = crate::clock::now_rfc3339();
        self.update_last_sync_at(t);
    }

    pub fn get_last_sync_at(&self) -> (r: Option<String>)
        ensures
            r == self.store.last_sync_at,
    {
        clone_opt_string(&self.store.last_sync_at)
    }

    /// Removes all entries and forgets the last sync time.
    pub fn clear(&mut self)
        ensures
            final(self).store@ == (StoreView {
                entries: Seq::empty(),
                last_sync_at: None,
                ..old(self).store@
            }),
    {
        self.store.entries = Vec::new();
        self.store.last_sync_at = None;
        assert(self.store@.entries =~= Seq::<EntryView>::empty());
    }
}

/// No task has two running entries.
pub open spec fn one_running_per_task(st: StoreView) -> bool {
    forall|i: int, j: int|
        0 <= i < j < st.entries.len() && entry_running(#[trigger] st.entries[i]) && entry_running(
            #[trigger] st.entries[j],
        ) ==> st.entries[i].task_id != st.entries[j].task_id
}

/// No entry holds more than `MAX_TIMESTAMPS_PER_ENTRY` recordings.
pub open spec fn timestamps_bounded(st: StoreView) -> bool {
    forall|i: int|
        0 <= i < st.entries.len() ==> #[trigger] st.entries[i].timestamps.len()
            <= MAX_TIMESTAMPS_PER_ENTRY
}

/// Starting a timer keeps each task to at most one running entry: a task
/// that already runs reuses its entry.
pub proof fn law_start_keeps_one_running_entry(st: StoreView, task_id: i64, at: Seq<char>)
    requires
        one_running_per_task(st),
    ensures
        one_running_per_task(started(st, task_id, at)),
{
    lemma_first_match_props(st.entries, running_of(task_id));
    let post = started(st, task_id, at);
    assert forall|i: int, j: int|
        0 <= i < j < post.entries.len() && entry_running(#[trigger] post.entries[i])
            && entry_running(#[trigger] post.entries[j]) implies post.entries[i].task_id
        != post.entries[j].task_id by {
        if j == st.entries.len() {
            assert(!running_of(task_id)(st.entries[i]));
        }
    }
}

/// Stopping, recording a timestamp, syncing and cleaning up never create a
/// second running entry for a task.
pub proof fn law_updates_keep_one_running_entry(
    st: StoreView,
    task_id: i64,
    at: Seq<char>,
    s: StampView,
    v: i64,
)
    requires
        one_running_per_task(st),
    ensures
        one_running_per_task(stopped(st, task_id, at)),
        one_running_per_task(timestamp_added(st, task_id, s)),
        one_running_per_task(synced(st, task_id, v)),
        one_running_per_task(StoreView { entries: keep(st.entries, kept_by_cleanup()), ..st }),
{
    lemma_first_match_props(st.entries, running_of(task_id));
    lemma_first_match_props(st.entries, of_task(task_id));
    lemma_keep_one_running(st.entries, kept_by_cleanup());
    if let Some(k) = first_match(st.entries, of_task(task_id)) {
        if st.entries[k].client_stopped_at is Some {
            let r = st.entries.remove(k);
            assert forall|i: int, j: int|
                0 <= i < j < r.len() && entry_running(#[trigger] r[i]) && entry_running(
                    #[trigger] r[j],
                ) implies r[i].task_id != r[j].task_id by {
                let a = if i < k { i } else { i + 1 };
                let b = if j < k { j } else { j + 1 };
                assert(r[i] == st.entries[a] && r[j] == st.entries[b]);
            }
        }
    }
}

/// Recording a timestamp never lets an entry hold more than the retention
/// limit.
pub proof fn law_timestamps_stay_bounded(st: StoreView, task_id: i64, s: StampView)
    requires
        timestamps_bounded(st),
    ensures
        timestamps_bounded(timestamp_added(st, task_id, s)),
{
    lemma_first_match_props(st.entries, running_of(task_id));
}

/// A running entry synced up to its latest recording no longer needs
/// syncing, until more time is recorded.
pub proof fn law_synced_running_entry_is_settled(st: StoreView, task_id: i64)
    requires
        one_running_per_task(st),
        first_match(st.entries, of_task(task_id)) matches Some(i) && entry_running(st.entries[i])
            && st.entries[i].timestamps.len() > 0,
    ensures
        ({
            let i = first_match(st.entries, of_task(task_id))->Some_0;
            let post = synced(st, task_id, st.entries[i].timestamps.last().1);
            &&& !entry_unsynced(post.entries[i])
            &&& !entry_to_sync(post.entries[i])
            &&& post.entries[i].task_id == task_id
        }),
{
    lemma_first_match_props(st.entries, of_task(task_id));
}

/// A stopped entry, once synced, leaves the store, and the store no longer
/// counts as running; every other entry stays as it was, in order.
pub proof fn law_sync_removes_stopped_entry(st: StoreView, task_id: i64, v: i64)
    requires
        first_match(st.entries, of_task(task_id)) matches Some(i) && !entry_running(st.entries[i]),
    ensures
        ({
            let i = first_match(st.entries, of_task(task_id))->Some_0;
            let post = synced(st, task_id, v);
            &&& post.entries == st.entries.remove(i)
            &&& !post.was_running
            &&& post.last_running_task_id is None
            &&& post.auth_token == st.auth_token
            &&& post.last_sync_at == st.last_sync_at
        }),
{
    lemma_first_match_props(st.entries, of_task(task_id));
    let i = first_match(st.entries, of_task(task_id))->Some_0;
    assert(stopped_of(task_id)(st.entries[i]));
    lemma_first_match_props(st.entries, stopped_of(task_id));
}

/// Keeping some entries of a store with one running entry per task keeps
/// that property.
proof fn lemma_keep_one_running(s: Seq<EntryView>, p: spec_fn(EntryView) -> bool)
    requires
        one_running_per_task(StoreView {
            entries: s,
            last_sync_at: None,
            was_running: false,
            last_running_task_id: None,
            auth_token: None,
        }),
    ensures
        one_running_per_task(StoreView {
            entries: keep(s, p),
            last_sync_at: None,
            was_running: false,
            last_running_task_id: None,
            auth_token: None,
        }),
    decreases s.len(),
{
    if s.len() > 0 {
        let d = s.drop_last();
        lemma_keep_one_running(d, p);
        let k = keep(s, p);
        let kd = keep(d, p);
        assert forall|i: int, j: int|
            0 <= i < j < k.len() && entry_running(#[trigger] k[i]) && entry_running(
                #[trigger] k[j],
            ) implies k[i].task_id != k[j].task_id by {
            assert(k[i] == kd[i]);
            if j < kd.len() {
                assert(k[j] == kd[j]);
            } else {
                lemma_keep_index(d, p, i);
                let a = choose|a: int| 0 <= a < d.len() && d[a] == kd[i];
                assert(s[a] == d[a]);
                assert(k[j] == s[s.len() - 1]);
            }
        }
    }
}

proof fn lemma_keep_index<A>(s: Seq<A>, p: spec_fn(A) -> bool, i: int)
    requires
        0 <= i < keep(s, p).len(),
    ensures
        exists|a: int| 0 <= a < s.len() && s[a] == keep(s, p)[i],
    decreases s.len(),
{
    let d = s.drop_last();
    if i < keep(d, p).len() {
        lemma_keep_index(d, p, i);
        let a = choose|a: int| 0 <= a < d.len() && d[a] == keep(d, p)[i];
        assert(s[a] == d[a]);
    } else {
        assert(s[s.len() - 1] == keep(s, p)[i]);
    }
}

/// An element that satisfies `p` is kept.
proof fn lemma_keep_contains<A>(s: Seq<A>, p: spec_fn(A) -> bool, i: int)
    requires
        0 <= i < s.len(),
        p(s[i]),
    ensures
        exists|j: int| 0 <= j < keep(s, p).len() && keep(s, p)[j] == s[i],
    decreases s.len(),
{
    let d = s.drop_last();
    if i < d.len() {
        assert(d[i] == s[i]);
        lemma_keep_contains(d, p, i);
        let j = choose|j: int| 0 <= j < keep(d, p).len() && keep(d, p)[j] == d[i];
        assert(keep(s, p)[j] == keep(d, p)[j]);
    } else {
        assert(keep(s, p)[keep(d, p).len() as int] == s[i]);
    }
}

/// Time data stays until it is synced: cleanup keeps every unsynced entry
/// and every running one, and removes only stopped entries that are synced.
pub proof fn law_cleanup_keeps_unsynced_data(st: StoreView, i: int)
    requires
        0 <= i < st.entries.len(),
    ensures
        (!st.entries[i].synced || entry_running(st.entries[i])) ==> exists|j: int|
            0 <= j < keep(st.entries, kept_by_cleanup()).len() && keep(
                st.entries,
                kept_by_cleanup(),
            )[j] == st.entries[i],
        forall|j: int|
            0 <= j < keep(st.entries, kept_by_cleanup()).len() ==> kept_by_cleanup()(
                #[trigger] keep(st.entries, kept_by_cleanup())[j],
            ),
{
    if !st.entries[i].synced || entry_running(st.entries[i]) {
        lemma_keep_contains(st.entries, kept_by_cleanup(), i);
    }
    lemma_keep_all(st.entries, kept_by_cleanup());
}

/// Every kept element satisfies `p`.
proof fn lemma_keep_all<A>(s: Seq<A>, p: spec_fn(A) -> bool)
    ensures
        forall|j: int| 0 <= j < keep(s, p).len() ==> p(#[trigger] keep(s, p)[j]),
    decreases s.len(),
{
    if s.len() > 0 {
        let d = s.drop_last();
        lemma_keep_all(d, p);
        let k = keep(s, p);
        let kd = keep(d, p);
        assert forall|j: int| 0 <= j < k.len() implies p(#[trigger] k[j]) by {
            if j < kd.len() {
                assert(k[j] == kd[j]);
            }
        }
    }
}

} // verus!
