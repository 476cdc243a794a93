//! The poll contract that every task obeys.

use crate::thread_waker::Waker;
use vstd::prelude::*;

verus! {

/// The answer of a single non-blocking probe of a task.
#[derive(Clone, Copy, Debug, PartialEq, Eq)]
pub enum Poll<T> {
    /// The task has finished and hands out its output.
    Ready(T),
    /// The task has not finished yet; the handle it was polled with is
    /// notified when polling again may be worthwhile.
    Pending,
}

/// A suspendable computation.
///
/// `poll_spec` is the task's transition relation: it holds of a state, the
/// handle the state was polled with, the answer, and the state afterwards.
/// `poll_bound` is an upper bound on the number of `Pending` answers the task
/// can still give, where such a bound exists.
pub trait Task: Sized {
    type Output;

    /// Whether polling `self` with `waker` may answer `result` and leave the
    /// task as `next`. A task that says nothing of itself may do anything.
    open spec fn poll_spec(&self, waker: Waker, result: Poll<Self::Output>, next: Self) -> bool {
        true
    }

    /// `Some(n)` if the task answers `Pending` at most `n` more times;
    /// `None` if its progress depends on events the task does not control.
    open spec fn poll_bound(&self) -> Option<u64> {
        None
    }

    /// Probes the task once, registering `waker` as the handle to notify.
    fn poll(&mut self, waker: &Waker) -> (result: Poll<Self::Output>)
        ensures
            old(self).poll_spec(*waker, result, *final(self)),
            old(self).poll_bound() matches Some(n) ==> {
                &&& final(self).poll_bound() is Some
                &&& result is Pending ==> final(self).poll_bound().unwrap() < n
            },
    ;
}

} // verus!
