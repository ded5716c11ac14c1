//! Syncing stored time entries to the backend: which entries the periodic
//! sync and the sync before quitting send, with which totals, and what the
//! user is told about it.

use vstd::prelude::*;

use crate::local_store::{opt_view, EntryView, LocalTimeEntry};
use crate::models::clone_opt_string;
use crate::text::{duration_text, format_duration, int_text, nat_text, push_int_text, push_nat_text};

verus! {

/// A stored entry's total to send: the elapsed seconds of its last
/// timestamp (they are cumulative), or zero when it has none.
pub open spec fn last_elapsed(e: EntryView) -> int {
    if e.timestamps.len() > 0 {
        e.timestamps.last().1 as int
    } else {
        0
    }
}

/// A sync request for a stored entry (`api::sync_time`).
#[derive(Debug, Clone)]
pub struct EntrySync {
    pub task_id: i64,
    /// The entry's total elapsed seconds.
    pub elapsed_seconds: i64,
    pub client_started_at: String,
    pub client_stopped_at: Option<String>,
}

/// The request for `e` with total `elapsed`, as plain values.
pub open spec fn request_of(e: EntryView, elapsed: int) -> (i64, int, Seq<char>, Option<Seq<char>>) {
    (e.task_id, elapsed, e.client_started_at, e.client_stopped_at)
}

/// A request as plain values.
pub open spec fn request_view(r: EntrySync) -> (i64, int, Seq<char>, Option<Seq<char>>) {
    (r.task_id, r.elapsed_seconds as int, r.client_started_at@, opt_view(r.client_stopped_at))
}

impl LocalTimeEntry {
    /// The entry's total elapsed seconds: those of its last timestamp.
    pub fn current_elapsed(&self) -> (t: i64)
        ensures
            t == last_elapsed(self@),
    {
        let n = self.timestamps.len();
        if n > 0 {
            self.timestamps[n - 1].elapsed_secs
        } else {
            0
        }
    }

    fn request(&self, elapsed: i64) -> (r: EntrySync)
        ensures
            request_view(r) == request_of(self@, elapsed as int),
    {
        EntrySync {
            task_id: self.task_id,
            elapsed_seconds: elapsed,
            client_started_at: self.client_started_at.clone(),
            client_stopped_at: clone_opt_string(&self.client_stopped_at),
        }
    }
}

/// The request to send for an entry before quitting: an unsynced entry with
/// a positive total is sent with that total; others are skipped.
pub fn quit_request(entry: &LocalTimeEntry) -> (r: Option<EntrySync>)
    ensures
        !entry.synced && last_elapsed(entry@) > 0 ==> (r matches Some(x) && request_view(x)
            == request_of(entry@, last_elapsed(entry@))),
        !(!entry.synced && last_elapsed(entry@) > 0) ==> r is None,
{
    if entry.synced {
        return None;
    }
    let total = entry.current_elapsed();
    if total > 0 {
        Some(entry.request(total))
    } else {
        None
    }
}

/// A periodic sync of an entry: the request (with the entry's total) and
/// the seconds that are new since the last sync.
#[derive(Debug, Clone)]
pub struct PeriodicSync {
    pub sync: EntrySync,
    pub new_seconds: i64,
}

/// The periodic sync of an entry: sent when its total is positive and grew
/// since the last sync.
pub fn periodic_request(entry: &LocalTimeEntry) -> (r: Option<PeriodicSync>)
    requires
        i64::MIN <= last_elapsed(entry@) - entry.last_synced_elapsed <= i64::MAX,
    ensures
        last_elapsed(entry@) > 0 && last_elapsed(entry@) > entry.last_synced_elapsed ==> (r matches Some(
            x,
        ) && request_view(x.sync) == request_of(entry@, last_elapsed(entry@)) && x.new_seconds
            == last_elapsed(entry@) - entry.last_synced_elapsed),
        !(last_elapsed(entry@) > 0 && last_elapsed(entry@) > entry.last_synced_elapsed) ==> r is None,
{
    let current = entry.current_elapsed();
    let new_time = current - entry.last_synced_elapsed;
    if current > 0 && new_time > 0 {
        Some(PeriodicSync { sync: entry.request(current), new_seconds: new_time })
    } else {
        None
    }
}

/// The message shown while a periodic sync sends `new_seconds`.
pub fn syncing_message(new_seconds: i64) -> (m: String)
    ensures
        m@ == "Syncing "@ + duration_text(new_seconds as int) + " to backend"@,
{
    let mut m = String::from_str("Syncing ");
    m.append(format_duration(new_seconds).as_str());
    m.append(" to backend");
    m
}

/// The message shown after a periodic sync sent `new_seconds`.
pub fn synced_message(new_seconds: i64) -> (m: String)
    ensures
        m@ == duration_text(new_seconds as int) + " synced successfully"@,
{
    let mut m = format_duration(new_seconds);
    m.append(" synced successfully");
    m
}

/// The most attempts at sending an entry before quitting.
pub const QUIT_SYNC_ATTEMPTS: u32 = 3;

/// The pause between two attempts at sending an entry before quitting
/// (milliseconds).
pub const QUIT_RETRY_DELAY_MS: u64 = 300;

/// What to do after an attempt at sending an entry before quitting.
#[derive(Debug, Clone, Copy, PartialEq, Eq)]
pub enum QuitAttemptStep {
    /// The backend confirmed the entry: mark it synced.
    Confirmed,
    /// Wait this many milliseconds, then send the entry again.
    RetryAfterMs(u64),
    /// The last attempt failed: report the entry as failed.
    GiveUp,
}

/// The step after the `attempts`-th attempt (counting from 1) at sending an
/// entry, which `succeeded` or not.
pub open spec fn quit_step(attempts: u32, succeeded: bool) -> QuitAttemptStep {
    if succeeded {
        QuitAttemptStep::Confirmed
    } else if attempts < QUIT_SYNC_ATTEMPTS {
        QuitAttemptStep::RetryAfterMs(QUIT_RETRY_DELAY_MS)
    } else {
        QuitAttemptStep::GiveUp
    }
}

/// Whether the attempt numbered `i` (from 0) succeeds, of the outcomes
/// `outcomes` the backend gives in turn.
pub open spec fn attempt_succeeds(outcomes: Seq<bool>, i: int) -> bool {
    0 <= i < outcomes.len() && outcomes[i]
}

/// The attempts made at sending an entry when the backend answers with
/// `outcomes` in turn, `made` attempts (all failed) being behind.
pub open spec fn attempts_taken(outcomes: Seq<bool>, made: nat) -> nat
    decreases QUIT_SYNC_ATTEMPTS - made,
{
    if made >= QUIT_SYNC_ATTEMPTS {
        made
    } else if attempt_succeeds(outcomes, made as int) {
        made + 1
    } else {
        attempts_taken(outcomes, made + 1)
    }
}

/// The retry policy of the sync before quitting: after a confirmed attempt
/// the entry is done; after a failed one it is sent again after a short
/// pause, up to `QUIT_SYNC_ATTEMPTS` attempts in all.
pub fn quit_attempt_step(attempts: u32, succeeded: bool) -> (s: QuitAttemptStep)
    requires
        attempts >= 1,
    ensures
        s == quit_step(attempts, succeeded),
{
    if succeeded {
        QuitAttemptStep::Confirmed
    } else if attempts < QUIT_SYNC_ATTEMPTS {
        QuitAttemptStep::RetryAfterMs(QUIT_RETRY_DELAY_MS)
    } else {
        QuitAttemptStep::GiveUp
    }
}

/// An entry sent before quitting is tried at most `QUIT_SYNC_ATTEMPTS`
/// times, `QUIT_RETRY_DELAY_MS` apart, and no more once the backend
/// confirmed it: following the policy, the attempt numbered `k + 1` is
/// followed by another exactly when `k + 1` is below the attempts taken, and
/// all attempts before the last failed.
pub proof fn law_quit_attempts_stop_at_first_success(outcomes: Seq<bool>)
    ensures
        ({
            let n = attempts_taken(outcomes, 0);
            &&& 1 <= n <= QUIT_SYNC_ATTEMPTS
            &&& forall|i: int| 0 <= i < n - 1 ==> !#[trigger] attempt_succeeds(outcomes, i)
            &&& attempt_succeeds(outcomes, n - 1) || n == QUIT_SYNC_ATTEMPTS
            &&& forall|k: int|
                0 <= k < n ==> (#[trigger] quit_step((k + 1) as u32, attempt_succeeds(outcomes, k))
                    == QuitAttemptStep::RetryAfterMs(QUIT_RETRY_DELAY_MS) <==> k + 1 < n)
            &&& quit_step(n as u32, attempt_succeeds(outcomes, n - 1)) == if attempt_succeeds(
                outcomes,
                n - 1,
            ) {
                QuitAttemptStep::Confirmed
            } else {
                QuitAttemptStep::GiveUp
            }
        }),
{
    lemma_attempts_taken(outcomes, 0);
}

proof fn lemma_attempts_taken(outcomes: Seq<bool>, made: nat)
    requires
        made <= QUIT_SYNC_ATTEMPTS,
        forall|i: int| 0 <= i < made ==> !#[trigger] attempt_succeeds(outcomes, i),
    ensures
        ({
            let n = attempts_taken(outcomes, made);
            &&& made <= n <= QUIT_SYNC_ATTEMPTS
            &&& made < QUIT_SYNC_ATTEMPTS ==> made < n
            &&& forall|i: int| 0 <= i < n - 1 ==> !#[trigger] attempt_succeeds(outcomes, i)
            &&& n > 0 ==> (attempt_succeeds(outcomes, n - 1) || n == QUIT_SYNC_ATTEMPTS)
        }),
    decreases QUIT_SYNC_ATTEMPTS - made,
{
    if made < QUIT_SYNC_ATTEMPTS && !attempt_succeeds(outcomes, made as int) {
        lemma_attempts_taken(outcomes, made + 1);
    }
}

/// The tally of the sync before quitting.
#[derive(Debug, Clone, Copy, PartialEq, Eq)]
pub struct QuitTally {
    pub synced: u64,
    pub failed: u64,
}

/// A notification: title and body.
pub type Notice = (String, String);

/// The notice before quitting when entries are pending: "Syncing {n}
/// pending entries before exit...".
pub fn quit_start_notice(pending: u64) -> (n: Option<Notice>)
    ensures
        pending == 0 ==> n is None,
        pending > 0 ==> (n matches Some((t, b)) && t@ == "Timez Pro - Closing"@ && b@ == "Syncing "@
            + nat_text(pending as nat) + " pending entries before exit..."@),
{
    if pending == 0 {
        return None;
    }
    let mut b = String::from_str("Syncing ");
    push_nat_text(&mut b, pending);
    b.append(" pending entries before exit...");
    Some((String::from_str("Timez Pro - Closing"), b))
}

/// The notice for an entry that failed to sync: "Failed to sync task
/// {task_id}: {error}".
pub fn sync_error_notice(task_id: i64, error: &str) -> (n: Notice)
    ensures
        n.0@ == "Timez Pro - Sync Error"@,
        n.1@ == "Failed to sync task "@ + int_text(task_id as int) + ": "@ + error@,
{
    let mut b = String::from_str("Failed to sync task ");
    push_int_text(&mut b, task_id);
    b.append(": ");
    b.append(error);
    (String::from_str("Timez Pro - Sync Error"), b)
}

impl QuitTally {
    /// Nothing sent yet.
    pub fn new() -> (t: Self)
        ensures
            t == (QuitTally { synced: 0, failed: 0 }),
    {
        QuitTally { synced: 0, failed: 0 }
    }

    /// Counts one entry sent, as synced when the backend confirmed it.
    pub fn record(&mut self, confirmed: bool)
        requires
            confirmed ==> old(self).synced < u64::MAX,
            !confirmed ==> old(self).failed < u64::MAX,
        ensures
            confirmed ==> *final(self) == (QuitTally { synced: (old(self).synced + 1) as u64, ..*old(self) }),
            !confirmed ==> *final(self) == (QuitTally { failed: (old(self).failed + 1) as u64, ..*old(self) }),
    {
        if confirmed {
            self.synced = self.synced + 1;
        } else {
            self.failed = self.failed + 1;
        }
    }

    /// The last notice before exit: all synced, or a warning that data may
    /// be lost when some failed; nothing when nothing was sent.
    pub fn final_notice(&self) -> (n: Option<Notice>)
        ensures
            self.synced > 0 && self.failed == 0 ==> (n matches Some((t, b)) && t@
                == "Timez Pro - Goodbye"@ && b@ == "All "@ + nat_text(self.synced as nat)
                + " entries synced successfully!"@),
            self.failed > 0 ==> (n matches Some((t, b)) && t@ == "Timez Pro - Warning"@ && b@
                == nat_text(self.synced as nat) + " entries synced, "@ + nat_text(self.failed as nat) + " failed. Data may be lost."@),
            self.synced == 0 && self.failed == 0 ==> n is None,
    {
        if self.synced > 0 && self.failed == 0 {
            let mut b = String::from_str("All ");
            push_nat_text(&mut b, self.synced);
            b.append(" entries synced successfully!");
            Some((String::from_str("Timez Pro - Goodbye"), b))
        } else if self.failed > 0 {
            let mut b = String::new();
            push_nat_text(&mut b, self.synced);
            b.append(" entries synced, ");
            push_nat_text(&mut b, self.failed);
            b.append(" failed. Data may be lost.");
            Some((String::from_str("Timez Pro - Warning"), b))
        } else {
            None
        }
    }
}

} // verus!
