//! The state shared by a spawned computation's adapter and the handle that
//! observes its result.
//!
//! The adapter runs on an executor: on each turn it first asks whether it
//! should keep going, then polls the computation, and sends the result once
//! it is ready. Dropping the handle cancels the computation unless the handle
//! was forgotten first, in which case it runs to completion unobserved.
use vstd::prelude::*;

use crate::oneshot::{Canceled, Inner};
use crate::Async;

verus! {

/// Where the adapter of a spawned computation stands.
#[derive(Clone, Copy, PartialEq, Eq, Debug, Structural)]
pub enum AdapterPhase {
    /// Still polling the computation.
    Running,
    /// The computation finished and its result was sent.
    Completed,
    /// The handle was dropped without being forgotten; the computation was
    /// abandoned.
    Aborted,
}

/// Shared record of a spawned computation yielding `Result<T, E>`, with task
/// handles `W`.
pub struct SpawnState<T, E, W> {
    /// The one-shot channel from the adapter to the handle.
    pub channel: Inner<Result<T, E>, W>,
    /// Whether dropping the handle aborts the computation; cleared by
    /// `forget`.
    pub cancel_on_drop: bool,
    /// The adapter's progress.
    pub adapter: AdapterPhase,
}

impl<T, E, W> SpawnState<T, E, W> {
    /// While the adapter runs, no result has been stored yet.
    pub open spec fn wf(self) -> bool {
        self.adapter is Running ==> self.channel.data is None
    }

    /// The record of a freshly spawned computation.
    pub open spec fn initial() -> Self {
        SpawnState { channel: Inner::initial(), cancel_on_drop: true, adapter: AdapterPhase::Running }
    }

    /// Whether the adapter keeps polling the computation on this turn: it
    /// stops only when the handle is gone and was not forgotten.
    pub open spec fn turn_result(self) -> bool {
        !(self.channel.complete && self.cancel_on_drop)
    }

    /// The record after an adapter turn made by the task `current`.
    pub open spec fn after_turn(self, current: W) -> Self {
        SpawnState {
            channel: self.channel.after_poll_cancel(current),
            cancel_on_drop: self.cancel_on_drop,
            adapter: if self.turn_result() {
                AdapterPhase::Running
            } else {
                AdapterPhase::Aborted
            },
        }
    }

    /// The record after the adapter delivers the computation's result.
    pub open spec fn after_complete(self, result: Result<T, E>) -> Self {
        SpawnState {
            channel: self.channel.after_send(result),
            cancel_on_drop: self.cancel_on_drop,
            adapter: AdapterPhase::Completed,
        }
    }

    /// The record after the handle is forgotten (and so let go of).
    pub open spec fn after_forget(self) -> Self {
        SpawnState {
            channel: self.channel.after_drop_rx(),
            cancel_on_drop: false,
            adapter: self.adapter,
        }
    }

    /// The record after the handle is dropped.
    pub open spec fn after_drop_handle(self) -> Self {
        SpawnState {
            channel: self.channel.after_drop_rx(),
            cancel_on_drop: self.cancel_on_drop,
            adapter: self.adapter,
        }
    }

    /// What polling the handle yields: the computation's value or error once
    /// sent; `None` when the adapter finished without sending, which a
    /// conforming executor never lets happen.
    pub open spec fn poll_handle_result(self) -> Option<Result<Async<T>, E>> {
        match self.channel.recv_result() {
            Ok(Async::Ready(Ok(t))) => Some(Ok(Async::Ready(t))),
            Ok(Async::Ready(Err(e))) => Some(Err(e)),
            Ok(Async::NotReady) => Some(Ok(Async::NotReady)),
            Err(_) => None,
        }
    }

    /// Creates the record of a freshly spawned computation.
    pub fn new() -> (r: Self)
        ensures
            r == Self::initial(),
            r.wf(),
    {
        SpawnState { channel: Inner::new(), cancel_on_drop: true, adapter: AdapterPhase::Running }
    }

    /// One adapter turn on behalf of the task `current`: checks for
    /// cancellation, parking `current` if the handle is still there. Returns
    /// whether to poll the computation now; if not, the adapter is aborted.
    pub fn adapter_turn(&mut self, current: W) -> (r: bool)
        requires
            old(self).adapter is Running,
            old(self).wf(),
        ensures
            r == old(self).turn_result(),
            *final(self) == old(self).after_turn(current),
            final(self).wf(),
    {
        let canceled = self.channel.poll_cancel(current);
        match canceled {
            Async::Ready(()) => {
                if self.cancel_on_drop {
                    self.adapter = AdapterPhase::Aborted;
                    return false;
                }
            },
            Async::NotReady => {},
        }
        true
    }

    /// The computation finished with `result`: sends it to the handle. If
    /// the handle is gone the result is dropped.
    pub fn adapter_complete(&mut self, result: Result<T, E>)
        requires
            old(self).adapter is Running,
            old(self).wf(),
        ensures
            *final(self) == old(self).after_complete(result),
            final(self).wf(),
    {
        let _ = self.channel.send(result);
        self.adapter = AdapterPhase::Completed;
    }

    /// The adapter is dropped, finished or not: marks the channel complete
    /// and returns the parked handle task, which the caller wakes.
    pub fn adapter_drop(&mut self) -> (wake: Option<W>)
        ensures
            wake == old(self).channel.rx_task,
            final(self).channel == old(self).channel.after_drop_tx(),
            final(self).cancel_on_drop == old(self).cancel_on_drop,
            final(self).adapter == old(self).adapter,
    {
        self.channel.drop_tx()
    }

    /// Lets go of the handle without cancelling the computation, which then
    /// runs to completion unobserved. Returns the parked adapter task, which
    /// the caller wakes.
    pub fn forget(&mut self) -> (wake: Option<W>)
        requires
            old(self).wf(),
        ensures
            wake == old(self).channel.tx_task,
            *final(self) == old(self).after_forget(),
            final(self).wf(),
    {
        self.cancel_on_drop = false;
        self.channel.drop_rx()
    }

    /// Drops the handle: unless it was forgotten, the computation will be
    /// abandoned at its next turn. Returns the parked adapter task, which the
    /// caller wakes.
    pub fn drop_handle(&mut self) -> (wake: Option<W>)
        requires
            old(self).wf(),
        ensures
            wake == old(self).channel.tx_task,
            *final(self) == old(self).after_drop_handle(),
            final(self).wf(),
    {
        self.channel.drop_rx()
    }

    /// Polls the handle on behalf of the task `current`.
    pub fn poll_handle(&mut self, current: W) -> (r: Option<Result<Async<T>, E>>)
        requires
            old(self).wf(),
        ensures
            r == old(self).poll_handle_result(),
            final(self).channel == old(self).channel.after_recv(current),
            final(self).cancel_on_drop == old(self).cancel_on_drop,
            final(self).adapter == old(self).adapter,
            final(self).wf(),
    {
        match self.channel.recv(current) {
            Ok(Async::Ready(Ok(t))) => Some(Ok(Async::Ready(t))),
            Ok(Async::Ready(Err(e))) => Some(Err(e)),
            Ok(Async::NotReady) => Some(Ok(Async::NotReady)),
            Err(Canceled) => None,
        }
    }
}

/// A forgotten handle does not stop the computation: after `forget`, every
/// adapter turn keeps polling, and the computation's result is then
/// delivered to a finished channel, where nobody observes it.
pub proof fn lemma_forgotten_computation_runs<T, E, W>(
    s: SpawnState<T, E, W>,
    w1: W,
    w2: W,
    result: Result<T, E>,
)
    requires
        s.adapter is Running,
        s.wf(),
    ensures
        s.after_forget().turn_result(),
        s.after_forget().after_turn(w1).adapter is Running,
        s.after_forget().after_turn(w1).turn_result(),
        s.after_forget().after_turn(w1).after_turn(w2).turn_result(),
        s.after_forget().after_turn(w1).after_complete(result).adapter is Completed,
        s.after_forget().after_turn(w1).after_complete(result).channel.complete,
{
}

/// A handle dropped without `forget` aborts the computation at the
/// adapter's next turn.
pub proof fn lemma_dropped_handle_aborts<T, E, W>(s: SpawnState<T, E, W>, w: W)
    requires
        s.cancel_on_drop,
    ensures
        !s.after_drop_handle().turn_result(),
        s.after_drop_handle().after_turn(w).adapter is Aborted,
{
}

/// A result delivered and followed by the adapter going away reaches the
/// handle: a value as `Ready`, an error as the error.
pub proof fn lemma_result_reaches_handle<T, E, W>(s: SpawnState<T, E, W>, result: Result<T, E>)
    requires
        s.adapter is Running,
        !s.channel.complete,
    ensures
        ({
            let done = s.after_complete(result);
            let seen = SpawnState {
                channel: done.channel.after_drop_tx(),
                cancel_on_drop: done.cancel_on_drop,
                adapter: done.adapter,
            };
            &&& result is Ok ==> seen.poll_handle_result() == Some(
                Ok::<Async<T>, E>(Async::Ready(result->Ok_0)),
            )
            &&& result is Err ==> seen.poll_handle_result() == Some(Err::<Async<T>, E>(result->Err_0))
        }),
{
}

} // verus!
