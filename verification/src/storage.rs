//! The services' time-entry store, in which an entry stays open until it is
//! synced: starting a task reuses (and resets) its unsynced entry, and crash
//! recovery reports the last recorded stamp of each open entry.

use vstd::prelude::*;

use crate::clock::rfc3339_text;
use crate::local_store::{opt_view, StampView};
use crate::models::clone_opt_string;
use crate::seqs::{first_match, keep, lemma_first_match_at, lemma_first_match_props, lemma_keep_step};

verus! {

#[derive(Debug, Clone, Default)]
pub struct TimeStamp {
    pub timestamp: String,
    pub elapsed_secs: i64,
}

#[derive(Debug, Clone, Default)]
pub struct LocalTimeEntry {
    pub task_id: i64,
    pub client_started_at: String,
    pub client_stopped_at: Option<String>,
    pub synced: bool,
    pub timestamps: Vec<TimeStamp>,
}

#[derive(Debug, Clone, Default)]
pub struct LocalTimeStore {
    pub entries: Vec<LocalTimeEntry>,
    pub last_sync_at: Option<String>,
    pub was_running: bool,
    pub last_running_task_id: Option<i64>,
    pub auth_token: Option<String>,
}

/// The store of time entries.
pub struct LocalTimeStorage {
    pub store: LocalTimeStore,
}

/// A time entry as plain values.
pub struct OpenEntryView {
    pub task_id: i64,
    pub client_started_at: Seq<char>,
    pub client_stopped_at: Option<Seq<char>>,
    pub synced: bool,
    pub timestamps: Seq<StampView>,
}

/// The store as plain values.
pub struct OpenStoreView {
    pub entries: Seq<OpenEntryView>,
    pub last_sync_at: Option<Seq<char>>,
    pub was_running: bool,
    pub last_running_task_id: Option<i64>,
    pub auth_token: Option<Seq<char>>,
}

impl View for TimeStamp {
    type V = StampView;

    open spec fn view(&self) -> StampView {
        (self.timestamp@, self.elapsed_secs)
    }
}

impl View for LocalTimeEntry {
    type V = OpenEntryView;

    open spec fn view(&self) -> OpenEntryView {
        OpenEntryView {
            task_id: self.task_id,
            client_started_at: self.client_started_at@,
            client_stopped_at: opt_view(self.client_stopped_at),
            synced: self.synced,
            timestamps: self.timestamps@.map_values(|t: TimeStamp| t@),
        }
    }
}

impl View for LocalTimeStore {
    type V = OpenStoreView;

    open spec fn view(&self) -> OpenStoreView {
        OpenStoreView {
            entries: self.entries@.map_values(|e: LocalTimeEntry| e@),
            last_sync_at: opt_view(self.last_sync_at),
            was_running: self.was_running,
            last_running_task_id: self.last_running_task_id,
            auth_token: opt_view(self.auth_token),
        }
    }
}

/// The open (unsynced) entry of a task.
pub open spec fn open_of(task_id: i64) -> spec_fn(OpenEntryView) -> bool {
    |e: OpenEntryView| e.task_id == task_id && !e.synced
}

/// Any entry of a task.
pub open spec fn any_of(task_id: i64) -> spec_fn(OpenEntryView) -> bool {
    |e: OpenEntryView| e.task_id == task_id
}

/// Unsynced entries.
pub open spec fn unsynced() -> spec_fn(OpenEntryView) -> bool {
    |e: OpenEntryView| !e.synced
}

/// The entries after a task (re)starts at `started_at`: its open entry runs
/// again from scratch, or a new entry is added.
pub open spec fn restarted(es: Seq<OpenEntryView>, task_id: i64, started_at: Seq<char>) -> Seq<
    OpenEntryView,
> {
    match first_match(es, open_of(task_id)) {
        Some(i) => es.update(
            i,
            OpenEntryView {
                client_started_at: started_at,
                client_stopped_at: None,
                timestamps: Seq::empty(),
                ..es[i]
            },
        ),
        None => es.push(
            OpenEntryView {
                task_id,
                client_started_at: started_at,
                client_stopped_at: None,
                synced: false,
                timestamps: Seq::empty(),
            },
        ),
    }
}

/// The entries after the task's open entry records `s`.
pub open spec fn stamped_open(es: Seq<OpenEntryView>, task_id: i64, s: StampView) -> Seq<
    OpenEntryView,
> {
    match first_match(es, open_of(task_id)) {
        Some(i) => es.update(i, OpenEntryView { timestamps: es[i].timestamps.push(s), ..es[i] }),
        None => es,
    }
}

/// The entries after the task's open entry stops at `stopped_at`.
pub open spec fn closed(es: Seq<OpenEntryView>, task_id: i64, stopped_at: Seq<char>) -> Seq<
    OpenEntryView,
> {
    match first_match(es, open_of(task_id)) {
        Some(i) => es.update(i, OpenEntryView { client_stopped_at: Some(stopped_at), ..es[i] }),
        None => es,
    }
}

/// The entries after the task's first entry is synced.
pub open spec fn synced_first(es: Seq<OpenEntryView>, task_id: i64) -> Seq<OpenEntryView> {
    match first_match(es, any_of(task_id)) {
        Some(i) => es.update(i, OpenEntryView { synced: true, ..es[i] }),
        None => es,
    }
}

impl TimeStamp {
    pub fn copy(&self) -> (t: TimeStamp)
        ensures
            t@ == self@,
    {
        TimeStamp { timestamp: self.timestamp.clone(), elapsed_secs: self.elapsed_secs }
    }
}

impl LocalTimeEntry {
    pub fn copy(&self) -> (e: LocalTimeEntry)
        ensures
            e@ == self@,
    {
        let mut timestamps: Vec<TimeStamp> = Vec::new();
        let n = self.timestamps.len();
        for i in 0..n
            invariant
                n == self.timestamps@.len(),
                timestamps@.len() == i,
                forall|j: int| 0 <= j < i ==> #[trigger] timestamps@[j]@ == self.timestamps@[j]@,
        {
            timestamps.push(self.timestamps[i].copy());
        }
        assert(timestamps@.map_values(|t: TimeStamp| t@) =~= self.timestamps@.map_values(
            |t: TimeStamp| t@,
        ));
        LocalTimeEntry {
            task_id: self.task_id,
            client_started_at: self.client_started_at.clone(),
            client_stopped_at: clone_opt_string(&self.client_stopped_at),
            synced: self.synced,
            timestamps,
        }
    }
}

impl LocalTimeStorage {
    /// A storage holding `store` (as loaded from disk, or empty).
    pub fn with_store(store: LocalTimeStore) -> (s: Self)
        ensures
            s.store@ == store@,
    {
        LocalTimeStorage { store }
    }

    fn find_open(&self, task_id: i64) -> (i: Option<usize>)
        ensures
            match i {
                Some(k) => k < self.store@.entries.len() && first_match(
                    self.store@.entries,
                    open_of(task_id),
                ) == Some(k as int),
                None => first_match(self.store@.entries, open_of(task_id)) is None,
            },
    {
        let ghost es = self.store@.entries;
        let n = self.store.entries.len();
        let mut i: usize = 0;
        while i < n
            invariant
                n == es.len(),
                es == self.store@.entries,
                0 <= i <= n,
                forall|j: int| 0 <= j < i ==> !open_of(task_id)(#[trigger] es[j]),
            decreases n - i,
        {
            let e = &self.store.entries[i];
            if e.task_id == task_id && !e.synced {
                proof {
                    lemma_first_match_at(es, open_of(task_id), i as int);
                }
                return Some(i);
            }
            i = i + 1;
        }
        proof {
            lemma_first_match_props(es, open_of(task_id));
        }
        None
    }

    fn replace_entry(&mut self, i: usize, e: LocalTimeEntry)
        requires
            i < old(self).store.entries@.len(),
        ensures
            final(self).store@ == (OpenStoreView {
                entries: old(self).store@.entries.update(i as int, e@),
                ..old(self).store@
            }),
    {
        self.store.entries.set(i, e);
        assert(self.store@.entries =~= old(self).store@.entries.update(i as int, e@));
    }

    fn restart(&mut self, task_id: i64, started_at: String)
        ensures
            final(self).store@ == (OpenStoreView {
                entries: restarted(old(self).store@.entries, task_id, started_at@),
                ..old(self).store@
            }),
    {
        let ghost at = started_at@;
        match self.find_open(task_id) {
            Some(i) => {
                let mut e = self.store.entries[i].copy();
                e.client_started_at = started_at;
                e.client_stopped_at = None;
                e.timestamps = Vec::new();
                assert(e@.timestamps =~= Seq::<StampView>::empty());
                self.replace_entry(i, e);
            },
            None => {
                let e = LocalTimeEntry {
                    task_id,
                    client_started_at: started_at,
                    client_stopped_at: None,
                    synced: false,
                    timestamps: Vec::new(),
                };
                assert(e@.timestamps =~= Seq::<StampView>::empty());
                self.store.entries.push(e);
                assert(self.store@.entries =~= restarted(old(self).store@.entries, task_id, at));
            },
        }
    }

    /// (Re)starts the task's open entry at `started_at`.
    pub fn start_timer(&mut self, task_id: i64, started_at: String)
        ensures
            final(self).store@ == (OpenStoreView {
                entries: restarted(old(self).store@.entries, task_id, started_at@),
                ..old(self).store@
            }),
    {
        self.restart(task_id, started_at);
    }

    /// (Re)starts the task's open entry at `started_at` and records the
    /// task as running.
    pub fn set_running(&mut self, task_id: i64, started_at: String)
        ensures
            final(self).store@ == (OpenStoreView {
                entries: restarted(old(self).store@.entries, task_id, started_at@),
                was_running: true,
                last_running_task_id: Some(task_id),
                ..old(self).store@
            }),
    {
        self.restart(task_id, started_at);
        self.store.was_running = true;
        self.store.last_running_task_id = Some(task_id);
    }

    /// Stops the task's open entry at `stopped_at`; the store no longer
    /// counts as running.
    pub fn set_stopped_at(&mut self, task_id: i64, stopped_at: String)
        ensures
            final(self).store@ == (OpenStoreView {
                entries: closed(old(self).store@.entries, task_id, stopped_at@),
                was_running: false,
                ..old(self).store@
            }),
    {
        if let Some(i) = self.find_open(task_id) {
            let mut e = self.store.entries[i].copy();
            e.client_stopped_at = Some(stopped_at);
            self.replace_entry(i, e);
        }
        self.store.was_running = false;
    }

    /// Stops the task's open entry now.
    pub fn set_stopped(&mut self, task_id: i64)
        ensures
            exists|t: i64|
                final(self).store@ == (OpenStoreView {
                    entries: closed(old(self).store@.entries, task_id, #[trigger] rfc3339_text(t)),
                    was_running: false,
                    ..old(self).store@
                }),
    {
        let t = crate::clock::now_rfc3339();
        self.set_stopped_at(task_id, t);
    }

    /// Records `elapsed` at `timestamp` for the task's open entry.
    pub fn add_timestamp_at(&mut self, task_id: i64, elapsed: i64, timestamp: String)
        ensures
            final(self).store@ == (OpenStoreView {
                entries: stamped_open(old(self).store@.entries, task_id, (timestamp@, elapsed)),
                ..old(self).store@
            }),
    {
        if let Some(i) = self.find_open(task_id) {
            let mut e = self.store.entries[i].copy();
            let ghost ts0 = e@.timestamps;
            let ghost at = timestamp@;
            e.timestamps.push(TimeStamp { timestamp, elapsed_secs: elapsed });
            assert(e@.timestamps =~= ts0.push((at, elapsed)));
            self.replace_entry(i, e);
        }
    }

    /// Records `elapsed` now for the task's open entry.
    pub fn add_timestamp(&mut self, task_id: i64, elapsed: i64)
        ensures
            exists|t: i64|
                final(self).store@ == (OpenStoreView {
                    entries: stamped_open(
                        old(self).store@.entries,
                        task_id,
                        (#[trigger] rfc3339_text(t), elapsed),
                    ),
                    ..old(self).store@
                }),
    {
        let t = crate::clock::now_rfc3339();
        self.add_timestamp_at(task_id, elapsed, t);
    }

    /// The task's open entry, if any.
    pub fn get_entry(&self, task_id: i64) -> (r: Option<LocalTimeEntry>)
        ensures
            match first_match(self.store@.entries, open_of(task_id)) {
                Some(i) => (r matches Some(e) && e@ == self.store@.entries[i]),
                None => r is None,
            },
    {
        match self.find_open(task_id) {
            Some(i) => Some(self.store.entries[i].copy()),
            None => None,
        }
    }

    /// The unsynced entries, in store order.
    pub fn get_unsynced_entries(&self) -> (r: Vec<LocalTimeEntry>)
        ensures
            r@.map_values(|e: LocalTimeEntry| e@) == keep(self.store@.entries, unsynced()),
    {
        let ghost es = self.store@.entries;
        let mut out: Vec<LocalTimeEntry> = Vec::new();
        let n = self.store.entries.len();
        for i in 0..n
            invariant
                n == es.len(),
                es == self.store@.entries,
                out@.map_values(|e: LocalTimeEntry| e@) == keep(es.take(i as int), unsynced()),
        {
            proof {
                lemma_keep_step(es, unsynced(), i as int);
            }
            let e = &self.store.entries[i];
            if !e.synced {
                let c = e.copy();
                out.push(c);
                assert(out@.map_values(|e: LocalTimeEntry| e@) =~= keep(
                    es.take(i as int),
                    unsynced(),
                ).push(es[i as int]));
            }
        }
        assert(es.take(n as int) =~= es);
        out
    }

    /// Marks the task's first entry as synced.
    pub fn mark_synced(&mut self, task_id: i64)
        ensures
            final(self).store@ == (OpenStoreView {
                entries: synced_first(old(self).store@.entries, task_id),
                ..old(self).store@
            }),
    {
        let ghost es = self.store@.entries;
        let n = self.store.entries.len();
        let mut i: usize = 0;
        while i < n
            invariant
                n == es.len(),
                es == self.store@.entries,
                *self == *old(self),
                0 <= i <= n,
                forall|j: int| 0 <= j < i ==> !any_of(task_id)(#[trigger] es[j]),
            decreases n - i,
        {
            if self.store.entries[i].task_id == task_id {
                proof {
                    lemma_first_match_at(es, any_of(task_id), i as int);
                }
                let mut e = self.store.entries[i].copy();
                e.synced = true;
                self.replace_entry(i, e);
                return ;
            }
            i = i + 1;
        }
        proof {
            lemma_first_match_props(es, any_of(task_id));
        }
        assert(self.store@.entries =~= synced_first(old(self).store@.entries, task_id));
    }

    pub fn was_running(&self) -> (r: bool)
        ensures
            r == self.store.was_running,
    {
        self.store.was_running
    }

    pub fn get_last_running_task_id(&self) -> (r: Option<i64>)
        ensures
            r == self.store.last_running_task_id,
    {
        self.store.last_running_task_id
    }

    pub fn clear_running_state(&mut self)
        ensures
            final(self).store@ == (OpenStoreView {
                was_running: false,
                last_running_task_id: None,
                ..old(self).store@
            }),
    {
        self.store.was_running = false;
        self.store.last_running_task_id = None;
    }

    pub fn get_auth_token(&self) -> (r: Option<String>)
        ensures
            r == self.store.auth_token,
    {
        clone_opt_string(&self.store.auth_token)
    }

    pub fn set_auth_token(&mut self, token: String)
        ensures
            final(self).store@ == (OpenStoreView { auth_token: Some(token@), ..old(self).store@ }),
    {
        self.store.auth_token = Some(token);
    }
}

/// What the start-up check found for a timer that may have been running
/// when the app last ended.
#[derive(Debug, Clone, PartialEq, Eq)]
pub enum CrashRecovery {
    /// The timer was not running: a normal start.
    NotRunning,
    /// The timer was running but its task has no unsynced entry.
    NoEntry,
    /// Ask the backend to discard the task's time after
    /// `recovery_timestamp` (its last recorded timestamp, or its start);
    /// mark the task synced once the backend confirmed.
    Recover { task_id: i64, recovery_timestamp: String },
    /// There is no token to reach the backend: the running state was
    /// cleared and the entry stays pending.
    AwaitingSignIn { task_id: i64 },
}

/// The instant from which a crashed entry's time is discarded: its last
/// recorded timestamp, or its start when it has none.
pub open spec fn recovery_point(e: OpenEntryView) -> Seq<char> {
    if e.timestamps.len() > 0 {
        e.timestamps.last().0
    } else {
        e.client_started_at
    }
}

impl LocalTimeStorage {
    /// The start-up check after a possible crash. `has_token` says whether
    /// a token to reach the backend is at hand (in memory or stored).
    pub fn begin_crash_recovery(&mut self, has_token: bool) -> (r: CrashRecovery)
        ensures
            !old(self).store.was_running ==> r == CrashRecovery::NotRunning && *final(self) == *old(
                self,
            ),
            old(self).store.was_running ==> match old(self).store.last_running_task_id {
                None => r == CrashRecovery::NoEntry && *final(self) == *old(self),
                Some(id) => match first_match(old(self).store@.entries, open_of(id)) {
                    None => r == CrashRecovery::NoEntry && *final(self) == *old(self),
                    Some(i) => if has_token {
                        &&& r matches CrashRecovery::Recover { task_id, recovery_timestamp }
                        &&& task_id == id
                        &&& recovery_timestamp@ == recovery_point(old(self).store@.entries[i])
                        &&& *final(self) == *old(self)
                    } else {
                        &&& r == CrashRecovery::AwaitingSignIn { task_id: id }
                        &&& final(self).store@ == (OpenStoreView {
                            was_running: false,
                            last_running_task_id: None,
                            ..old(self).store@
                        })
                    },
                },
            },
    {
        if !self.store.was_running {
            return CrashRecovery::NotRunning;
        }
        let task_id = match self.store.last_running_task_id {
            Some(id) => id,
            None => {
                return CrashRecovery::NoEntry;
            },
        };
        let i = match self.find_open(task_id) {
            Some(i) => i,
            None => {
                return CrashRecovery::NoEntry;
            },
        };
        if has_token {
            let e = &self.store.entries[i];
            let n = e.timestamps.len();
            let recovery_timestamp = if n > 0 {
                e.timestamps[n - 1].timestamp.clone()
            } else {
                e.client_started_at.clone()
            };
            CrashRecovery::Recover { task_id, recovery_timestamp }
        } else {
            self.clear_running_state();
            CrashRecovery::AwaitingSignIn { task_id }
        }
    }
}

/// No task has two open (unsynced) entries.
pub open spec fn one_open_per_task(es: Seq<OpenEntryView>) -> bool {
    forall|i: int, j: int|
        0 <= i < j < es.len() && !(#[trigger] es[i]).synced && !(#[trigger] es[j]).synced
            ==> es[i].task_id != es[j].task_id
}

/// Starting, stopping and recording keep each task to at most one open
/// entry: a task that starts again reuses its open entry.
pub proof fn law_restart_keeps_one_open_entry(
    es: Seq<OpenEntryView>,
    task_id: i64,
    at: Seq<char>,
    s: StampView,
)
    requires
        one_open_per_task(es),
    ensures
        one_open_per_task(restarted(es, task_id, at)),
        one_open_per_task(stamped_open(es, task_id, s)),
        one_open_per_task(closed(es, task_id, at)),
        one_open_per_task(synced_first(es, task_id)),
{
    lemma_first_match_props(es, open_of(task_id));
    lemma_first_match_props(es, any_of(task_id));
    let post = restarted(es, task_id, at);
    assert forall|i: int, j: int|
        0 <= i < j < post.len() && !(#[trigger] post[i]).synced && !(#[trigger] post[j]).synced
            implies post[i].task_id != post[j].task_id by {
        if j == es.len() {
            assert(!open_of(task_id)(es[i]));
        }
    }
}

/// Crash recovery keeps the time that was recorded: after a timestamp
/// `stamp` was recorded for the task's open entry, that entry is still the
/// task's open entry and its recovery point is `stamp`, the most recent
/// recording, whatever was recorded before.
pub proof fn law_recovery_point_is_last_recording(es: Seq<OpenEntryView>, task_id: i64, stamp: StampView)
    requires
        first_match(es, open_of(task_id)) is Some,
    ensures
        ({
            let i = first_match(es, open_of(task_id))->Some_0;
            let post = stamped_open(es, task_id, stamp);
            &&& first_match(post, open_of(task_id)) == Some(i)
            &&& recovery_point(post[i]) == stamp.0
            &&& post[i].timestamps.len() == es[i].timestamps.len() + 1
        }),
{
    lemma_first_match_props(es, open_of(task_id));
    let i = first_match(es, open_of(task_id))->Some_0;
    let post = stamped_open(es, task_id, stamp);
    assert forall|j: int| 0 <= j < i implies !open_of(task_id)(#[trigger] post[j]) by {
        assert(post[j] == es[j]);
    }
    lemma_first_match_at(post, open_of(task_id), i);
}

} // verus!
