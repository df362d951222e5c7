//! The state shared by the halves of a last-value-wins channel.
//!
//! Producers overwrite a single slot rather than queue; the consumer takes
//! whatever is there when it polls. The consumer owns the channel: once it is
//! gone every send fails. Producers are only counted, and the stream ends
//! when the slot is empty and no producer is left.
use vstd::prelude::*;

use crate::Async;

verus! {

/// Error of a send after the consumer went away; holds the value unsent.
#[derive(Clone, PartialEq, Eq, Debug)]
pub struct SendError<T>(pub T);

impl<T> SendError<T> {
    /// Gives back the value that could not be sent.
    pub fn into_inner(self) -> (r: T)
        ensures
            r == self.0,
    {
        self.0
    }
}

/// Shared record of a slot channel carrying a `T`, with task handles `W`.
pub struct Inner<T, W> {
    /// The latest value not yet taken by the consumer.
    pub value: Option<T>,
    /// The consumer's task, parked while the slot is empty.
    pub task: Option<W>,
    /// How many producers still hold the channel.
    pub senders: u64,
    /// Whether the consumer still holds the channel.
    pub receiver_alive: bool,
}

impl<T, W> Inner<T, W> {
    /// The record of a fresh channel with one producer.
    pub open spec fn initial() -> Self {
        Inner { value: None, task: None, senders: 1, receiver_alive: true }
    }

    /// What `swap` returns: the value it replaced, or the value itself if the
    /// consumer is gone.
    pub open spec fn swap_result(self, v: T) -> Result<Option<T>, SendError<T>> {
        if self.receiver_alive {
            Ok(self.value)
        } else {
            Err(SendError(v))
        }
    }

    /// The task `swap` hands back to be woken.
    pub open spec fn swap_wake(self) -> Option<W> {
        if self.receiver_alive {
            self.task
        } else {
            None
        }
    }

    /// The record after `swap`.
    pub open spec fn after_swap(self, v: T) -> Self {
        if self.receiver_alive {
            Inner { value: Some(v), task: None, senders: self.senders, receiver_alive: true }
        } else {
            self
        }
    }

    /// The record after a producer is cloned.
    pub open spec fn after_add_sender(self) -> Self {
        Inner {
            value: self.value,
            task: self.task,
            senders: (self.senders + 1) as u64,
            receiver_alive: self.receiver_alive,
        }
    }

    /// The record after a producer lets go of the channel.
    pub open spec fn after_close_sender(self) -> Self {
        Inner {
            value: self.value,
            task: None,
            senders: (self.senders - 1) as u64,
            receiver_alive: self.receiver_alive,
        }
    }

    /// What `poll_next` returns: the latest value, the end of the stream
    /// once the slot is empty with no producer left, else not ready.
    pub open spec fn poll_next_result(self) -> Async<Option<T>> {
        match self.value {
            Some(v) => Async::Ready(Some(v)),
            None => if self.senders == 0 {
                Async::Ready(None)
            } else {
                Async::NotReady
            },
        }
    }

    /// The record after `poll_next` made by the task `current`.
    pub open spec fn after_poll_next(self, current: W) -> Self {
        match self.value {
            Some(_) => Inner {
                value: None,
                task: self.task,
                senders: self.senders,
                receiver_alive: self.receiver_alive,
            },
            None => if self.senders == 0 {
                self
            } else {
                Inner {
                    value: None,
                    task: Some(current),
                    senders: self.senders,
                    receiver_alive: self.receiver_alive,
                }
            },
        }
    }

    /// The record after the consumer goes away.
    pub open spec fn after_drop_receiver(self) -> Self {
        Inner { value: None, task: None, senders: self.senders, receiver_alive: false }
    }

    /// Creates the record of a fresh channel with one producer.
    pub fn new() -> (r: Self)
        ensures
            r == Self::initial(),
    {
        Inner { value: None, task: None, senders: 1, receiver_alive: true }
    }

    /// Replaces the slot's value with `v`. Returns the value replaced and the
    /// parked consumer task, which the caller wakes; if the consumer is gone,
    /// fails with `v` and changes nothing.
    pub fn swap(&mut self, v: T) -> (r: (Result<Option<T>, SendError<T>>, Option<W>))
        ensures
            r.0 == old(self).swap_result(v),
            r.1 == old(self).swap_wake(),
            *final(self) == old(self).after_swap(v),
    {
        if !self.receiver_alive {
            return (Err(SendError(v)), None);
        }
        let previous = self.value.take();
        self.value = Some(v);
        let wake = self.task.take();
        (Ok(previous), wake)
    }

    /// Counts one more producer.
    pub fn add_sender(&mut self)
        requires
            old(self).senders < u64::MAX,
        ensures
            *final(self) == old(self).after_add_sender(),
    {
        self.senders = self.senders + 1;
    }

    /// A producer lets go of the channel. Returns the parked consumer task,
    /// which the caller wakes so that it can see whether the stream ended.
    pub fn close_sender(&mut self) -> (wake: Option<W>)
        requires
            old(self).senders > 0,
        ensures
            wake == old(self).task,
            *final(self) == old(self).after_close_sender(),
    {
        self.senders = self.senders - 1;
        self.task.take()
    }

    /// Polls for the latest value on behalf of the task `current`, parking
    /// it if the slot is empty and a producer is left.
    pub fn poll_next(&mut self, current: W) -> (r: Async<Option<T>>)
        ensures
            r == old(self).poll_next_result(),
            *final(self) == old(self).after_poll_next(current),
    {
        match self.value.take() {
            Some(v) => Async::Ready(Some(v)),
            None => {
                if self.senders == 0 {
                    Async::Ready(None)
                } else {
                    self.task = Some(current);
                    Async::NotReady
                }
            },
        }
    }

    /// The consumer goes away: the slot and any parked task are discarded,
    /// and every later send fails.
    pub fn drop_receiver(&mut self)
        ensures
            *final(self) == old(self).after_drop_receiver(),
    {
        self.value = None;
        self.task = None;
        self.receiver_alive = false;
    }
}

/// Last value wins: of two sends before a poll, the consumer sees only the
/// second, and the second send hands the first value back.
pub proof fn lemma_last_value_wins<T, W>(s: Inner<T, W>, a: T, b: T, w: W)
    requires
        s.receiver_alive,
    ensures
        s.after_swap(a).swap_result(b) == Ok::<Option<T>, SendError<T>>(Some(a)),
        s.after_swap(a).after_swap(b).poll_next_result() == Async::Ready(Some(b)),
        s.after_swap(a).after_swap(b).after_poll_next(w).value is None,
{
}

/// With no producer left and nothing in the slot, the stream has ended, and
/// polling again changes nothing, so it stays ended.
pub proof fn lemma_end_of_stream_is_stable<T, W>(s: Inner<T, W>, w: W)
    requires
        s.senders == 0,
        s.value is None,
    ensures
        s.poll_next_result() == Async::<Option<T>>::Ready(None),
        s.after_poll_next(w) == s,
{
}

/// Dropping the only producer of a channel ends its stream.
pub proof fn lemma_last_sender_gone_ends_stream<T, W>(w: W)
    ensures
        Inner::<T, W>::initial().after_close_sender().poll_next_result() == Async::<
            Option<T>,
        >::Ready(None),
{
}

/// Once the consumer is gone, a send fails with the very value given.
pub proof fn lemma_swap_after_consumer_gone<T, W>(s: Inner<T, W>, v: T)
    ensures
        s.after_drop_receiver().swap_result(v) == Err::<Option<T>, SendError<T>>(SendError(v)),
        s.after_drop_receiver().after_swap(v) == s.after_drop_receiver(),
{
}

} // verus!
