//! Synchronisation records for poll-driven tasks: a one-shot channel
//! (`oneshot`), a last-value-wins channel (`slot`) and the state behind a
//! spawned computation's handle (`spawn`). Each record's transitions are
//! proved against spec functions that say what every step returns and leaves
//! behind; `interleaving` proves that the one-shot protocol loses no wakeup
//! when its steps are interleaved.
use vstd::prelude::*;

pub mod interleaving;
pub mod oneshot;
pub mod slot;
pub mod spawn;

verus! {

/// Outcome of one poll of a computation: either it has a result, or it has
/// arranged to be woken later and is not ready yet.
#[derive(Clone, Copy, PartialEq, Eq, Debug)]
pub enum Async<T> {
    Ready(T),
    NotReady,
}

} // verus!
