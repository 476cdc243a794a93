//! A leaf task whose work is a counter that each poll decrements.

use crate::task::{Poll, Task};
use crate::thread_executor::{completes_after, pending_run};
use crate::thread_waker::Waker;
use vstd::prelude::*;

verus! {

/// A task with `work_remaining` units of work left; every poll that finds
/// work left does one unit of it.
#[derive(Debug)]
pub struct FakeWorker {
    pub work_remaining: u8,
}

/// The output every `FakeWorker` completes with.
pub open spec fn done_message() -> Seq<char> {
    "All done!"@
}

impl Task for FakeWorker {
    type Output = &'static str;

    /// With no work left the task answers the completion message and stays as
    /// it is; otherwise it answers `Pending` with one unit less to do.
    open spec fn poll_spec(&self, waker: Waker, result: Poll<&'static str>, next: Self) -> bool {
        if self.work_remaining == 0 {
            &&& result matches Poll::Ready(message)
            &&& message@ == done_message()
            &&& next == *self
        } else {
            &&& result is Pending
            &&& next.work_remaining == self.work_remaining - 1
        }
    }

    open spec fn poll_bound(&self) -> Option<u64> {
        Some(self.work_remaining as u64)
    }

    fn poll(&mut self, waker: &Waker) -> (result: Poll<&'static str>) {
        if self.work_remaining == 0 {
            Poll::Ready("All done!")
        } else {
            self.work_remaining = self.work_remaining - 1;
            Poll::Pending
        }
    }
}

/// A worker that has answered `Ready` answers `Ready` with the same message
/// on every later poll, whichever handle it is polled with.
pub proof fn lemma_fake_worker_stays_ready(
    worker: FakeWorker,
    first_waker: Waker,
    first: Poll<&'static str>,
    after_first: FakeWorker,
    second_waker: Waker,
    second: Poll<&'static str>,
    after_second: FakeWorker,
)
    requires
        worker.poll_spec(first_waker, first, after_first),
        first is Ready,
        after_first.poll_spec(second_waker, second, after_second),
    ensures
        second is Ready,
        second->Ready_0@ == first->Ready_0@,
        after_second == after_first,
{
}

/// A worker answers `Ready` exactly when it is polled with no work left, so
/// a worker that starts with `n` units answers `Pending` exactly `n` times.
pub proof fn lemma_fake_worker_counts_down(
    worker: FakeWorker,
    waker: Waker,
    result: Poll<&'static str>,
    next: FakeWorker,
)
    requires
        worker.poll_spec(waker, result, next),
    ensures
        result is Ready <==> worker.work_remaining == 0,
        result is Ready ==> result->Ready_0@ == done_message(),
        result is Pending ==> next.work_remaining + 1 == worker.work_remaining,
{
}

/// Polled over and over, a worker with `n` units of work answers `Pending`
/// exactly `n` times and then `Ready` with the completion message: no run
/// is shorter or longer, and none ends with anything else.
pub proof fn lemma_fake_worker_completes_after_its_work(
    worker: FakeWorker,
    waker: Waker,
    polls: nat,
    output: &'static str,
)
    requires
        completes_after(worker, waker, polls, output),
    ensures
        polls == worker.work_remaining,
        output@ == done_message(),
{
    let (last, end) = choose|last: FakeWorker, end: FakeWorker|
        pending_run(worker, waker, polls, last) && #[trigger] last.poll_spec(
            waker,
            Poll::Ready(output),
            end,
        );
    lemma_fake_worker_pending_run(worker, waker, polls, last);
}

/// Every `Pending` answer stands for one unit of work done.
pub proof fn lemma_fake_worker_pending_run(
    worker: FakeWorker,
    waker: Waker,
    polls: nat,
    end: FakeWorker,
)
    requires
        pending_run(worker, waker, polls, end),
    ensures
        end.work_remaining + polls == worker.work_remaining,
    decreases polls,
{
    if polls > 0 {
        let mid = choose|mid: FakeWorker|
            pending_run(worker, waker, (polls - 1) as nat, mid) && #[trigger] mid.poll_spec(
                waker,
                Poll::Pending,
                end,
            );
        lemma_fake_worker_pending_run(worker, waker, (polls - 1) as nat, mid);
    }
}

} // verus!
