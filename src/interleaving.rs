//! A wait on a one-shot channel and the other side's finishing, taken apart
//! into the steps they make on the shared record when each field sits behind
//! its own try-only lock, and run in every possible interleaving.
//!
//! The waiter reads the completion flag, tries the lock of its wait slot,
//! leaves its task there and reads the flag again. The finisher sets the
//! flag, then tries the same lock and wakes whatever task it finds. A failed
//! try is never retried: each side reads it as the other side finishing.
//! The waiter is the consumer in a receive and the finisher the producer
//! going away; or the waiter is the producer in `poll_cancel` and the
//! finisher the consumer closing or going away. Under this protocol a waiter
//! that ends up parked is always woken.
use vstd::prelude::*;

verus! {

/// Who holds the lock of the waiter's wait slot.
pub enum SlotLock {
    Free,
    Waiter,
    Finisher,
}

/// Where the waiter stands.
pub enum WaiterStep {
    /// About to read the completion flag.
    Start,
    /// Holds the slot lock, about to leave its task.
    Locked,
    /// Has left its task, about to read the flag again.
    Stored,
    /// Saw completion, or failed to take the lock: the wait is over.
    Done,
    /// Returned not ready, with its task left in the slot.
    Parked,
}

/// Where the finisher stands.
pub enum FinisherStep {
    /// About to set the completion flag.
    Start,
    /// Has set the flag, about to try the slot lock.
    Flagged,
    /// Holds the slot lock, about to take and wake the task there.
    Locked,
    /// Finished.
    Done,
}

/// The shared fields and both parties' positions.
pub struct RaceState {
    pub complete: bool,
    /// Whether the waiter's task sits in its wait slot.
    pub task_parked: bool,
    pub lock: SlotLock,
    pub waiter: WaiterStep,
    pub finisher: FinisherStep,
    /// Whether the finisher has woken the waiter's task.
    pub woken: bool,
}

/// Both parties at their start, on a fresh record.
pub open spec fn race_initial() -> RaceState {
    RaceState {
        complete: false,
        task_parked: false,
        lock: SlotLock::Free,
        waiter: WaiterStep::Start,
        finisher: FinisherStep::Start,
        woken: false,
    }
}

/// The waiter's next step; once done or parked it stays put.
pub open spec fn waiter_step(s: RaceState) -> RaceState {
    match s.waiter {
        WaiterStep::Start => if s.complete {
            RaceState { waiter: WaiterStep::Done, ..s }
        } else if s.lock is Free {
            RaceState { waiter: WaiterStep::Locked, lock: SlotLock::Waiter, ..s }
        } else {
            RaceState { waiter: WaiterStep::Done, ..s }
        },
        WaiterStep::Locked => RaceState {
            waiter: WaiterStep::Stored,
            task_parked: true,
            lock: SlotLock::Free,
            ..s
        },
        WaiterStep::Stored => if s.complete {
            RaceState { waiter: WaiterStep::Done, ..s }
        } else {
            RaceState { waiter: WaiterStep::Parked, ..s }
        },
        _ => s,
    }
}

/// The finisher's next step; once done it stays put.
pub open spec fn finisher_step(s: RaceState) -> RaceState {
    match s.finisher {
        FinisherStep::Start => RaceState { finisher: FinisherStep::Flagged, complete: true, ..s },
        FinisherStep::Flagged => if s.lock is Free {
            RaceState { finisher: FinisherStep::Locked, lock: SlotLock::Finisher, ..s }
        } else {
            RaceState { finisher: FinisherStep::Done, ..s }
        },
        FinisherStep::Locked => RaceState {
            finisher: FinisherStep::Done,
            woken: s.woken || s.task_parked,
            task_parked: false,
            lock: SlotLock::Free,
            ..s
        },
        FinisherStep::Done => s,
    }
}

/// The state after the steps that `schedule` picks, in order: `true` moves
/// the waiter, `false` the finisher.
pub open spec fn race_run(schedule: Seq<bool>) -> RaceState
    decreases schedule.len(),
{
    if schedule.len() == 0 {
        race_initial()
    } else {
        let s = race_run(schedule.drop_last());
        if schedule.last() {
            waiter_step(s)
        } else {
            finisher_step(s)
        }
    }
}

/// What holds at every point of every interleaving.
pub open spec fn race_inv(s: RaceState) -> bool {
    &&& (s.lock is Waiter) == (s.waiter is Locked)
    &&& (s.lock is Finisher) == (s.finisher is Locked)
    &&& !(s.finisher is Start) ==> s.complete
    &&& s.waiter is Stored ==> s.task_parked || s.complete
    &&& s.waiter is Parked ==> (if s.finisher is Done {
        s.woken
    } else {
        s.task_parked
    })
}

proof fn lemma_steps_keep_inv(s: RaceState)
    requires
        race_inv(s),
    ensures
        race_inv(waiter_step(s)),
        race_inv(finisher_step(s)),
{
}

/// No wakeup is lost: in every interleaving of a wait with the other side's
/// finishing, a waiter that parked is woken by the time the finisher is
/// done.
pub proof fn lemma_no_missed_wakeup(schedule: Seq<bool>)
    ensures
        race_inv(race_run(schedule)),
        race_run(schedule).waiter is Parked && race_run(schedule).finisher is Done
            ==> race_run(schedule).woken,
    decreases schedule.len(),
{
    if schedule.len() > 0 {
        lemma_no_missed_wakeup(schedule.drop_last());
        lemma_steps_keep_inv(race_run(schedule.drop_last()));
    }
}

/// Both parties always finish: after three steps of each, the waiter is
/// done or parked and the finisher is done.
pub proof fn lemma_both_finish(schedule: Seq<bool>)
    requires
        race_inv(race_run(schedule)),
    ensures
        ({
            let s = race_run(schedule);
            let t = waiter_step(waiter_step(waiter_step(s)));
            let u = finisher_step(finisher_step(finisher_step(t)));
            &&& t.waiter is Done || t.waiter is Parked
            &&& u.finisher is Done
        }),
{
}

} // verus!
