//! The state shared by the two halves of a one-shot channel, and the
//! transitions each half makes on it.
//!
//! A producer stores at most one value and then signals completion by going
//! away; a consumer polls until completion and then takes the value, or learns
//! that none was sent. A party that must wait leaves its task handle `W` in the
//! record; a transition that ends the wait hands that handle back, and the
//! caller wakes it.
use vstd::prelude::*;

use crate::Async;

verus! {

/// Error returned by a receive when the producer went away without sending.
#[derive(Clone, Copy, PartialEq, Eq, Debug, Structural)]
pub struct Canceled;

impl Canceled {
    /// Human-readable description of the error.
    pub fn message(&self) -> (r: &'static str)
        ensures
            r@ == "oneshot canceled"@,
    {
        "oneshot canceled"
    }
}

/// Shared record of a one-shot channel carrying a `T`, with task handles `W`.
pub struct Inner<T, W> {
    /// Set once either side is finished; never cleared.
    pub complete: bool,
    /// The value sent, until the consumer takes it.
    pub data: Option<T>,
    /// The consumer's task, parked while waiting for completion.
    pub rx_task: Option<W>,
    /// The producer's task, parked while waiting for cancellation.
    pub tx_task: Option<W>,
}

impl<T, W> Inner<T, W> {
    /// The record of a fresh channel.
    pub open spec fn initial() -> Self {
        Inner { complete: false, data: None, rx_task: None, tx_task: None }
    }

    /// Whether a send is allowed: a value may be stored at most once.
    pub open spec fn can_send(self) -> bool {
        self.complete || self.data is None
    }

    /// What `send` returns.
    pub open spec fn send_result(self, t: T) -> Result<(), T> {
        if self.complete {
            Err(t)
        } else {
            Ok(())
        }
    }

    /// The record after `send`.
    pub open spec fn after_send(self, t: T) -> Self {
        if self.complete {
            self
        } else {
            Inner { complete: false, data: Some(t), rx_task: self.rx_task, tx_task: self.tx_task }
        }
    }

    /// What `poll_cancel` returns: ready once the consumer is gone.
    pub open spec fn poll_cancel_result(self) -> Async<()> {
        if self.complete {
            Async::Ready(())
        } else {
            Async::NotReady
        }
    }

    /// The record after `poll_cancel` made by the task `current`.
    pub open spec fn after_poll_cancel(self, current: W) -> Self {
        if self.complete {
            self
        } else {
            Inner {
                complete: false,
                data: self.data,
                rx_task: self.rx_task,
                tx_task: Some(current),
            }
        }
    }

    /// The record after the producer goes away.
    pub open spec fn after_drop_tx(self) -> Self {
        Inner { complete: true, data: self.data, rx_task: None, tx_task: self.tx_task }
    }

    /// The record after the consumer closes its half.
    pub open spec fn after_close_rx(self) -> Self {
        Inner { complete: true, data: self.data, rx_task: self.rx_task, tx_task: None }
    }

    /// The record after the consumer goes away.
    pub open spec fn after_drop_rx(self) -> Self {
        Inner { complete: true, data: self.data, rx_task: None, tx_task: None }
    }

    /// What `recv` returns: the value once complete, `Canceled` if complete
    /// with none, not ready before completion.
    pub open spec fn recv_result(self) -> Result<Async<T>, Canceled> {
        if self.complete {
            match self.data {
                Some(v) => Ok(Async::Ready(v)),
                None => Err(Canceled),
            }
        } else {
            Ok(Async::NotReady)
        }
    }

    /// The record after `recv` made by the task `current`.
    pub open spec fn after_recv(self, current: W) -> Self {
        if self.complete {
            Inner { complete: true, data: None, rx_task: self.rx_task, tx_task: self.tx_task }
        } else {
            Inner {
                complete: false,
                data: self.data,
                rx_task: Some(current),
                tx_task: self.tx_task,
            }
        }
    }

    /// Creates the record of a fresh channel.
    pub fn new() -> (r: Self)
        ensures
            r == Self::initial(),
    {
        Inner { complete: false, data: None, rx_task: None, tx_task: None }
    }

    /// Whether a send is allowed now: nothing was stored yet, or the
    /// channel is finished and the send will fail.
    pub fn may_send(&self) -> (r: bool)
        ensures
            r == self.can_send(),
    {
        self.complete || self.data.is_none()
    }

    /// Stores `t` for the consumer, or hands it back if the consumer is gone.
    /// Completion is signalled by `drop_tx`, not here.
    pub fn send(&mut self, t: T) -> (r: Result<(), T>)
        requires
            old(self).can_send(),
        ensures
            r == old(self).send_result(t),
            *final(self) == old(self).after_send(t),
    {
        if self.complete {
            return Err(t);
        }
        self.data = Some(t);
        Ok(())
    }

    /// Reports whether the consumer is gone; if not, parks `current` to be
    /// woken when it goes.
    pub fn poll_cancel(&mut self, current: W) -> (r: Async<()>)
        ensures
            r == old(self).poll_cancel_result(),
            *final(self) == old(self).after_poll_cancel(current),
    {
        if self.complete {
            return Async::Ready(());
        }
        self.tx_task = Some(current);
        Async::NotReady
    }

    /// Whether the consumer is gone, without parking anything.
    pub fn is_canceled(&self) -> (r: bool)
        ensures
            r == self.complete,
    {
        self.complete
    }

    /// The producer goes away: marks completion and returns the parked
    /// consumer task, which the caller wakes.
    pub fn drop_tx(&mut self) -> (wake: Option<W>)
        ensures
            wake == old(self).rx_task,
            *final(self) == old(self).after_drop_tx(),
    {
        self.complete = true;
        self.rx_task.take()
    }

    /// The consumer closes its half: no later send succeeds. Returns the
    /// parked producer task, which the caller wakes.
    pub fn close_rx(&mut self) -> (wake: Option<W>)
        ensures
            wake == old(self).tx_task,
            *final(self) == old(self).after_close_rx(),
    {
        self.complete = true;
        self.tx_task.take()
    }

    /// Polls for the value on behalf of the task `current`, parking it if
    /// the producer has not finished yet.
    pub fn recv(&mut self, current: W) -> (r: Result<Async<T>, Canceled>)
        ensures
            r == old(self).recv_result(),
            *final(self) == old(self).after_recv(current),
    {
        if !self.complete {
            self.rx_task = Some(current);
            return Ok(Async::NotReady);
        }
        match self.data.take() {
            Some(v) => Ok(Async::Ready(v)),
            None => Err(Canceled),
        }
    }

    /// The consumer goes away: marks completion, discards its own parked
    /// task, and returns the parked producer task, which the caller wakes.
    pub fn drop_rx(&mut self) -> (wake: Option<W>)
        ensures
            wake == old(self).tx_task,
            *final(self) == old(self).after_drop_rx(),
    {
        self.complete = true;
        self.rx_task = None;
        self.tx_task.take()
    }
}

/// A value sent and followed by the producer going away is received exactly
/// once: the first receive yields it, and a second receive yields `Canceled`.
pub proof fn lemma_send_then_receive_once<T, W>(t: T, w1: W, w2: W)
    ensures
        ({
            let s = Inner::<T, W>::initial().after_send(t).after_drop_tx();
            &&& Inner::<T, W>::initial().can_send()
            &&& Inner::<T, W>::initial().send_result(t) == Ok::<(), T>(())
            &&& s.recv_result() == Ok::<Async<T>, Canceled>(Async::Ready(t))
            &&& s.after_recv(w1).recv_result() == Err::<Async<T>, Canceled>(Canceled)
        }),
{
}

/// A producer that goes away without sending leaves the consumer with
/// `Canceled`, on every receive.
pub proof fn lemma_drop_without_send_cancels<T, W>(s: Inner<T, W>, w: W)
    requires
        s.data is None,
    ensures
        s.after_drop_tx().recv_result() == Err::<Async<T>, Canceled>(Canceled),
        s.after_drop_tx().after_recv(w).recv_result() == Err::<Async<T>, Canceled>(Canceled),
{
}

/// Once the consumer has gone away, a send fails and hands back the very
/// value it was given.
pub proof fn lemma_send_after_consumer_gone<T, W>(s: Inner<T, W>, t: T)
    ensures
        s.after_drop_rx().can_send(),
        s.after_drop_rx().send_result(t) == Err::<(), T>(t),
        s.after_drop_rx().after_send(t) == s.after_drop_rx(),
        s.after_close_rx().send_result(t) == Err::<(), T>(t),
{
}

/// No wakeup is lost: a consumer whose receive was not ready stays parked
/// through every producer step short of finishing, and the producer's going
/// away hands that very task back to be woken, after which the receive is
/// ready or canceled.
pub proof fn lemma_parked_consumer_is_woken<T, W>(s: Inner<T, W>, w: W, p: W, t: T)
    requires
        !s.complete,
    ensures
        ({
            let parked = s.after_recv(w);
            &&& s.recv_result() == Ok::<Async<T>, Canceled>(Async::NotReady)
            &&& parked.rx_task == Some(w)
            &&& parked.after_send(t).rx_task == Some(w)
            &&& parked.after_poll_cancel(p).rx_task == Some(w)
            &&& parked.after_send(t).after_poll_cancel(p).rx_task == Some(w)
            &&& parked.after_drop_tx().complete
            &&& parked.after_drop_tx().recv_result() != Ok::<Async<T>, Canceled>(Async::NotReady)
        }),
{
}

/// Likewise for the producer waiting on cancellation: the consumer's going
/// away, or closing, hands the parked producer task back to be woken, and
/// the next `poll_cancel` is ready.
pub proof fn lemma_parked_producer_is_woken<T, W>(s: Inner<T, W>, p: W, w: W)
    requires
        !s.complete,
    ensures
        ({
            let parked = s.after_poll_cancel(p);
            &&& s.poll_cancel_result() == Async::<()>::NotReady
            &&& parked.tx_task == Some(p)
            &&& parked.after_recv(w).tx_task == Some(p)
            &&& parked.after_drop_rx().poll_cancel_result() == Async::Ready(())
            &&& parked.after_close_rx().poll_cancel_result() == Async::Ready(())
        }),
{
}

} // verus!
