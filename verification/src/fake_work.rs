//! A leaf task whose blocking work is a sleep done by a background worker,
//! and whose completion is read off the worker itself.

use crate::task::Poll;
use crate::thread_timer::WorkerPoll;
use crate::thread_waker::Waker;
use std::time::Duration;
use vstd::prelude::*;

verus! {

/// The state of a `ThreadedFakeWorker` as contracts see it.
pub struct FakeWorkView {
    pub duration: Duration,
    pub started: bool,
    pub waker: Waker,
}

/// A task that is finished once its background worker has ended. The caller
/// holds the worker and tells each poll whether it has ended.
#[derive(Debug)]
pub struct ThreadedFakeWorker {
    duration: Duration,
    started: bool,
    waker: Waker,
}

impl FakeWorkView {
    /// The answer of a poll that finds the task in this state and the worker
    /// ended or not, as `worker_finished` says. The first poll asks for the
    /// worker and is always pending, since no worker exists yet.
    pub open spec fn poll_answer(self, worker_finished: bool) -> WorkerPoll {
        if !self.started {
            WorkerPoll { result: Poll::Pending, start_worker: Some(self.duration) }
        } else if worker_finished {
            WorkerPoll { result: Poll::Ready(()), start_worker: None }
        } else {
            WorkerPoll { result: Poll::Pending, start_worker: None }
        }
    }

    /// The state a poll with `waker` leaves behind.
    pub open spec fn after_poll(self, waker: Waker) -> FakeWorkView {
        FakeWorkView { duration: self.duration, started: true, waker }
    }
}

impl View for ThreadedFakeWorker {
    type V = FakeWorkView;

    closed spec fn view(&self) -> FakeWorkView {
        FakeWorkView { duration: self.duration, started: self.started, waker: self.waker }
    }
}

impl ThreadedFakeWorker {
    /// A task for `duration` of work, with no worker and nobody to notify.
    pub fn new(duration: Duration) -> (worker: Self)
        ensures
            worker@ == (FakeWorkView { duration, started: false, waker: Waker::Noop }),
    {
        ThreadedFakeWorker { duration, started: false, waker: Waker::Noop }
    }

    /// Polls the task. The handle is stored on every poll. The first poll
    /// asks for the worker; later polls are ready once the worker has ended.
    pub fn poll(&mut self, waker: &Waker, worker_finished: bool) -> (out: WorkerPoll)
        ensures
            out == old(self)@.poll_answer(worker_finished),
            final(self)@ == old(self)@.after_poll(*waker),
    {
        self.waker = *waker;
        if !self.started {
            self.started = true;
            WorkerPoll { result: Poll::Pending, start_worker: Some(self.duration) }
        } else if worker_finished {
            WorkerPoll { result: Poll::Ready(()), start_worker: None }
        } else {
            WorkerPoll { result: Poll::Pending, start_worker: None }
        }
    }

    /// The handle the worker notifies when its sleep is over: the one stored
    /// by the most recent poll.
    pub fn notify_target(&self) -> (target: Waker)
        ensures
            target == self@.waker,
    {
        self.waker
    }
}

/// After the first poll no poll asks for a worker again.
pub proof fn lemma_fake_work_starts_once(
    worker: FakeWorkView,
    first_waker: Waker,
    first_finished: bool,
    later_finished: bool,
)
    ensures
        worker.poll_answer(first_finished).start_worker is Some <==> !worker.started,
        worker.after_poll(first_waker).poll_answer(later_finished).start_worker is None,
{
}

/// A task that has answered `Ready` answers `Ready` again on every later
/// poll, whichever handle it is polled with: a worker that has ended stays
/// ended.
pub proof fn lemma_fake_work_stays_ready(
    worker: FakeWorkView,
    first_waker: Waker,
    second_waker: Waker,
)
    requires
        worker.poll_answer(true).result is Ready,
    ensures
        worker.after_poll(first_waker).poll_answer(true).result == Poll::Ready(()),
        worker.after_poll(first_waker).after_poll(second_waker).poll_answer(true).result
            == Poll::Ready(()),
{
}

} // verus!
