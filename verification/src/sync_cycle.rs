//! The task service's sync cycle: every `RETRY_CHECK_INTERVAL_SECS` the
//! retry queue is processed, and every `SYNC_INTERVAL_SECS` a full sync
//! reports the running timer's slot; a slot that fails to sync is queued so
//! that no time is lost.

use vstd::prelude::*;

use crate::clock::{now, rfc3339, rfc3339_text};
use crate::constants::{RETRY_CHECK_INTERVAL_SECS, SYNC_INTERVAL_SECS};
use crate::sync_queue::{
    enqueued, failure_recorded, fresh_pending, queue_wf, synced_out, QueueView, SyncQueue,
};
use crate::timer_state::{SlotCheck, SlotSync, TimerStateInner};

verus! {

/// Counts the seconds since the last full sync.
#[derive(Debug, Clone, Copy, PartialEq, Eq)]
pub struct SyncCycle {
    pub ticks_since_full_sync: u64,
}

/// The count after one more check: a full sync is due once the count
/// reaches `SYNC_INTERVAL_SECS`, which starts it over.
pub open spec fn next_ticks(t: u64) -> u64 {
    if t + RETRY_CHECK_INTERVAL_SECS < SYNC_INTERVAL_SECS {
        (t + RETRY_CHECK_INTERVAL_SECS) as u64
    } else {
        0
    }
}

impl SyncCycle {
    /// A cycle that just did its first full sync.
    pub fn new() -> (c: Self)
        ensures
            c.ticks_since_full_sync == 0,
    {
        SyncCycle { ticks_since_full_sync: 0 }
    }

    /// One retry check passed: returns whether the full sync is due now.
    pub fn tick(&mut self) -> (full_sync: bool)
        requires
            old(self).ticks_since_full_sync < SYNC_INTERVAL_SECS,
        ensures
            full_sync == (old(self).ticks_since_full_sync + RETRY_CHECK_INTERVAL_SECS
                >= SYNC_INTERVAL_SECS),
            final(self).ticks_since_full_sync == next_ticks(old(self).ticks_since_full_sync),
            final(self).ticks_since_full_sync < SYNC_INTERVAL_SECS,
    {
        self.ticks_since_full_sync = self.ticks_since_full_sync + RETRY_CHECK_INTERVAL_SECS;
        if self.ticks_since_full_sync < SYNC_INTERVAL_SECS {
            return false;
        }
        self.ticks_since_full_sync = 0;
        true
    }
}

/// From a fresh cycle, the full sync comes at every sixth check: the five
/// checks before it only process the retry queue.
pub proof fn law_full_sync_every_sixth_check()
    ensures
        next_ticks(0) == 5,
        next_ticks(5) == 10,
        next_ticks(10) == 15,
        next_ticks(15) == 20,
        next_ticks(20) == 25,
        next_ticks(25) == 0,
        forall|t: u64|
            t < SYNC_INTERVAL_SECS ==> (#[trigger] next_ticks(t) == 0 <==> t
                + RETRY_CHECK_INTERVAL_SECS >= SYNC_INTERVAL_SECS),
{
}

/// The queue after the running timer's slot failed to sync at `now`: the
/// running task's total and the start of its timer are queued, with no stop
/// time since it still runs. Nothing is queued when no timer runs.
pub open spec fn slot_queued(timer: &TimerStateInner, q: QueueView, now: i64) -> QueueView {
    match (timer.running_task_id, timer.timer_started_at) {
        (Some(id), Some(started)) => enqueued(
            q,
            fresh_pending(id, timer.total_elapsed(id, now) as i64, rfc3339_text(started), None, now),
        ),
        _ => q,
    }
}

/// A slot that failed to sync at `now` is queued for retry (see
/// `slot_queued`).
pub fn queue_failed_slot_at(timer: &TimerStateInner, queue: &mut SyncQueue, now: i64)
    requires
        queue_wf(old(queue)@),
    ensures
        queue_wf(final(queue)@),
        final(queue)@ == slot_queued(timer, old(queue)@, now),
{
    if let (Some(task_id), Some(started_at)) = (timer.running_task_id, timer.timer_started_at) {
        let total_elapsed = timer.get_total_elapsed_at(task_id, now);
        let client_started = rfc3339(started_at);
        queue.enqueue_at(task_id, total_elapsed, client_started, None, now);
    }
}

/// A slot that the backend confirmed at `now`: the timer records it, and
/// the running task's entry leaves the retry queue.
pub fn slot_confirmed_at(
    timer: &mut TimerStateInner,
    queue: &mut SyncQueue,
    slot: &SlotSync,
    now: i64,
)
    requires
        queue_wf(old(queue)@),
    ensures
        queue_wf(final(queue)@),
        final(timer).last_slot_sync_at == Some(slot.slot_end),
        final(timer).last_synced_elapsed@ == old(timer).last_synced_elapsed@.insert(
            slot.task_id,
            old(timer).total_elapsed(slot.task_id, now) as i64,
        ),
        final(timer).running_task_id == old(timer).running_task_id,
        final(timer).base_elapsed@ == old(timer).base_elapsed@,
        match old(timer).running_task_id {
            Some(id) => final(queue)@ == synced_out(old(queue)@, id),
            None => final(queue)@ == old(queue)@,
        },
{
    timer.slot_synced_at(slot, now);
    if let Some(task_id) = timer.running_task_id {
        queue.mark_synced(task_id);
    }
}

/// Settles the full sync's slot report at `now`. `check` is what the timer
/// had to report and `sent` the backend's answer when it was a slot (for
/// the other cases it is not looked at). A confirmed slot is recorded by the
/// timer and the running task leaves the retry queue; a failed one is
/// queued for retry. With no new time the running task leaves the retry
/// queue, its time being synced. A running timer without a slot session
/// counts as a failed report, so its time is queued.
pub fn settle_slot_at(
    timer: &mut TimerStateInner,
    queue: &mut SyncQueue,
    check: &SlotCheck,
    sent: Result<(), String>,
    now: i64,
)
    requires
        queue_wf(old(queue)@),
    ensures
        queue_wf(final(queue)@),
        match *check {
            SlotCheck::Send(slot) => match sent {
                Ok(()) => {
                    &&& final(timer).last_slot_sync_at == Some(slot.slot_end)
                    &&& final(timer).last_synced_elapsed@ == old(timer).last_synced_elapsed@.insert(
                        slot.task_id,
                        old(timer).total_elapsed(slot.task_id, now) as i64,
                    )
                    &&& final(timer).running_task_id == old(timer).running_task_id
                    &&& final(timer).base_elapsed@ == old(timer).base_elapsed@
                    &&& final(queue)@ == match old(timer).running_task_id {
                        Some(id) => synced_out(old(queue)@, id),
                        None => old(queue)@,
                    }
                },
                Err(_) => {
                    &&& *final(timer) == *old(timer)
                    &&& final(queue)@ == slot_queued(&*old(timer), old(queue)@, now)
                },
            },
            SlotCheck::NothingToSync => {
                &&& *final(timer) == *old(timer)
                &&& final(queue)@ == match old(timer).running_task_id {
                    Some(id) => synced_out(old(queue)@, id),
                    None => old(queue)@,
                }
            },
            SlotCheck::NotRunning => {
                &&& *final(timer) == *old(timer)
                &&& final(queue)@ == slot_queued(&*old(timer), old(queue)@, now)
            },
        },
{
    match check {
        SlotCheck::Send(slot) => match sent {
            Ok(()) => slot_confirmed_at(timer, queue, slot, now),
            Err(_) => queue_failed_slot_at(timer, queue, now),
        },
        SlotCheck::NothingToSync => {
            if let Some(task_id) = timer.running_task_id {
                queue.mark_synced(task_id);
            }
        },
        SlotCheck::NotRunning => queue_failed_slot_at(timer, queue, now),
    }
}

/// Settles a retried entry at `now` with the backend's answer: a confirmed
/// sync leaves the queue, a failed one counts a failure with its error.
pub fn settle_retry_at(queue: &mut SyncQueue, task_id: i64, outcome: Result<(), String>, now: i64)
    requires
        queue_wf(old(queue)@),
    ensures
        queue_wf(final(queue)@),
        match outcome {
            Ok(()) => final(queue)@ == synced_out(old(queue)@, task_id),
            Err(e) => final(queue)@ == failure_recorded(old(queue)@, task_id, e@, now),
        },
{
    match outcome {
        Ok(()) => queue.mark_synced(task_id),
        Err(e) => queue.record_failure_at(task_id, e, now),
    }
}

/// Settles a retried entry now (see `settle_retry_at`).
pub fn settle_retry(queue: &mut SyncQueue, task_id: i64, outcome: Result<(), String>)
    requires
        queue_wf(old(queue)@),
    ensures
        queue_wf(final(queue)@),
        match outcome {
            Ok(()) => final(queue)@ == synced_out(old(queue)@, task_id),
            Err(e) => exists|t: i64|
                final(queue)@ == #[trigger] failure_recorded(old(queue)@, task_id, e@, t),
        },
{
    settle_retry_at(queue, task_id, outcome, now());
}

} // verus!
