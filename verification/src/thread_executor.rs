//! Driving a task to completion.
//!
//! `Driver` is the blocking driver seen from the task's side: each step polls
//! once and says whether the calling thread has to suspend or is done. The
//! caller suspends on the wake token between steps. `execute` is the driver
//! that never suspends; it is for tasks that finish by being polled.

use crate::task::{Poll, Task};
use crate::thread_waker::Waker;
use vstd::prelude::*;

verus! {

/// What the driving thread has to do after a step.
#[derive(Clone, Copy, Debug, PartialEq, Eq)]
pub enum DriverAction<T> {
    /// The task is pending: suspend until notified, then step again.
    Park,
    /// The task is finished: this is its output.
    Return(T),
}

/// A task together with the one handle it is polled with.
pub struct Driver<F: Task> {
    task: F,
    waker: Waker,
}

/// Whether `end` is `start` after `polls` polls with `waker` that were all
/// answered `Pending`.
pub open spec fn pending_run<F: Task>(start: F, waker: Waker, polls: nat, end: F) -> bool
    decreases polls,
{
    if polls == 0 {
        end == start
    } else {
        exists|mid: F|
            pending_run(start, waker, (polls - 1) as nat, mid) && #[trigger] mid.poll_spec(
                waker,
                Poll::Pending,
                end,
            )
    }
}

/// Whether `start`, polled with `waker` over and over, may answer `Pending`
/// exactly `polls` times and then `Ready` with `output`.
pub open spec fn completes_after<F: Task>(
    start: F,
    waker: Waker,
    polls: nat,
    output: F::Output,
) -> bool {
    exists|last: F, end: F|
        pending_run(start, waker, polls, last) && #[trigger] last.poll_spec(
            waker,
            Poll::Ready(output),
            end,
        )
}

impl<F: Task> Driver<F> {
    /// The task as it stands.
    pub closed spec fn task(&self) -> F {
        self.task
    }

    /// The handle every step polls with.
    pub closed spec fn waker(&self) -> Waker {
        self.waker
    }

    /// A driver for `future` that polls with `waker`: the handle of the
    /// driving thread, or the no-op handle for a thread that never suspends.
    pub fn new(future: F, waker: Waker) -> (driver: Self)
        ensures
            driver.task() == future,
            driver.waker() == waker,
    {
        Driver { task: future, waker }
    }

    /// Polls the task once with the driver's handle. The output is returned
    /// only for a poll that answered `Ready` with it; a pending task always
    /// sends the caller to suspend.
    pub fn step(&mut self) -> (action: DriverAction<F::Output>)
        ensures
            final(self).waker() == old(self).waker(),
            match action {
                DriverAction::Park => old(self).task().poll_spec(
                    old(self).waker(),
                    Poll::Pending,
                    final(self).task(),
                ),
                DriverAction::Return(output) => old(self).task().poll_spec(
                    old(self).waker(),
                    Poll::Ready(output),
                    final(self).task(),
                ),
            },
            old(self).task().poll_bound() matches Some(n) ==> {
                &&& final(self).task().poll_bound() is Some
                &&& action is Park ==> final(self).task().poll_bound().unwrap() < n
            },
    {
        match self.task.poll(&self.waker) {
            Poll::Pending => DriverAction::Park,
            Poll::Ready(output) => DriverAction::Return(output),
        }
    }
}

/// Polls `future` with the no-op handle until it is ready, without ever
/// suspending. Returns the output and the number of polls that were
/// answered `Pending` before it.
pub fn execute<F: Task>(future: F) -> (done: (F::Output, u64))
    requires
        future.poll_bound() is Some,
    ensures
        completes_after(future, Waker::Noop, done.1 as nat, done.0),
        done.1 <= future.poll_bound().unwrap(),
{
    let mut task = future;
    let waker = Waker::noop();
    let mut pending_polls: u64 = 0;
    loop
        invariant
            waker == Waker::Noop,
            pending_run(future, waker, pending_polls as nat, task),
            future.poll_bound() is Some,
            task.poll_bound() is Some,
            pending_polls + task.poll_bound().unwrap() <= future.poll_bound().unwrap(),
        decreases task.poll_bound().unwrap(),
    {
        let ghost before = task;
        match task.poll(&waker) {
            Poll::Ready(output) => {
                assert(before.poll_spec(waker, Poll::Ready(output), task));
                return (output, pending_polls);
            },
            Poll::Pending => {
                pending_polls = pending_polls + 1;
                proof {
                    let polls: nat = pending_polls as nat;
                    assert(pending_run(future, waker, (polls - 1) as nat, before));
                    assert(before.poll_spec(waker, Poll::Pending, task));
                    assert(pending_run(future, waker, polls, task));
                }
            },
        }
    }
}

} // verus!
