//! The two-way join: one task made of two, finished when both are.

pub mod collapsable_future;

use crate::join::collapsable_future::{
    collapse_step, CollapsableFuture, InnerCollapsableFuture, InnerFutureSpentError,
};
use crate::task::{Poll, Task};
use crate::thread_waker::Waker;
use vstd::prelude::*;

verus! {

/// Two tasks polled side by side. The join owns both for its whole life and
/// hands out their outputs as a pair, the first task's output first.
pub struct Join<F1: Task, F2: Task>(CollapsableFuture<F1>, CollapsableFuture<F2>);

/// The larger of two bounds.
pub open spec fn max_bound(a: u64, b: u64) -> u64 {
    if a >= b {
        a
    } else {
        b
    }
}

impl<F1: Task, F2: Task> Join<F1, F2> {
    /// The wrapper around the first task.
    pub closed spec fn first(&self) -> CollapsableFuture<F1> {
        self.0
    }

    /// The wrapper around the second task.
    pub closed spec fn second(&self) -> CollapsableFuture<F2> {
        self.1
    }

    /// Whether no output has left the join yet.
    pub open spec fn unspent(&self) -> bool {
        &&& !(self.first()@ is Spent)
        &&& !(self.second()@ is Spent)
    }

    /// Joins two tasks, neither of which has been polled through the join.
    pub fn new(future1: F1, future2: F2) -> (join: Self)
        ensures
            join.first()@ == InnerCollapsableFuture::Pending(future1),
            join.second()@ == InnerCollapsableFuture::Pending(future2),
    {
        Join(CollapsableFuture::new(future1), CollapsableFuture::new(future2))
    }
}

impl<F1: Task, F2: Task> Task for Join<F1, F2> {
    type Output = Result<(F1::Output, F2::Output), InnerFutureSpentError>;

    /// Every poll polls both wrappers with the same handle.
    ///
    /// The join answers the pair of outputs when both wrappers hold one after
    /// their polls, and both are spent afterwards. It answers `Pending` while
    /// a wrapper is still pending. It answers the error when no wrapper is
    /// pending and one of them is spent.
    open spec fn poll_spec(
        &self,
        waker: Waker,
        result: Poll<Result<(F1::Output, F2::Output), InnerFutureSpentError>>,
        next: Self,
    ) -> bool {
        match result {
            Poll::Ready(Ok((output1, output2))) => {
                &&& collapse_step(self.first()@, waker, InnerCollapsableFuture::Ready(output1))
                &&& collapse_step(self.second()@, waker, InnerCollapsableFuture::Ready(output2))
                &&& next.first()@ is Spent
                &&& next.second()@ is Spent
            },
            Poll::Ready(Err(_)) => {
                &&& collapse_step(self.first()@, waker, next.first()@)
                &&& collapse_step(self.second()@, waker, next.second()@)
                &&& !(next.first()@ is Pending)
                &&& !(next.second()@ is Pending)
                &&& (next.first()@ is Spent || next.second()@ is Spent)
            },
            Poll::Pending => {
                &&& collapse_step(self.first()@, waker, next.first()@)
                &&& collapse_step(self.second()@, waker, next.second()@)
                &&& (next.first()@ is Pending || next.second()@ is Pending)
            },
        }
    }

    /// Both tasks are polled on every tick, so the join is pending no longer
    /// than the slower of the two.
    open spec fn poll_bound(&self) -> Option<u64> {
        match (self.first().poll_bound(), self.second().poll_bound()) {
            (Some(a), Some(b)) => Some(max_bound(a, b)),
            _ => None,
        }
    }

    fn poll(&mut self, waker: &Waker) -> (result: Poll<
        Result<(F1::Output, F2::Output), InnerFutureSpentError>,
    >) {
        let r1 = self.0.poll(waker);
        let r2 = self.1.poll(waker);

        match (r1, r2) {
            (Poll::Ready(r1), Poll::Ready(r2)) => {
                if r1.is_err() || r2.is_err() {
                    Poll::Ready(Err(InnerFutureSpentError))
                } else {
                    let output1 = self.0.extract().unwrap().unwrap();
                    let output2 = self.1.extract().unwrap().unwrap();
                    Poll::Ready(Ok((output1, output2)))
                }
            },
            _ => Poll::Pending,
        }
    }
}

/// A join that has given nothing away completes exactly when neither task
/// is left pending by the tick, and then with the pair of outputs, the first
/// task's output first: each output is the one its own task was seen to
/// finish with in this tick or an earlier one. Such a join never reports the
/// error, and while it is pending it has still given nothing away.
pub proof fn lemma_join_pairing<F1: Task, F2: Task>(
    join: Join<F1, F2>,
    waker: Waker,
    result: Poll<Result<(F1::Output, F2::Output), InnerFutureSpentError>>,
    next: Join<F1, F2>,
)
    requires
        join.unspent(),
        join.poll_spec(waker, result, next),
    ensures
        result is Ready <==> !(next.first()@ is Pending) && !(next.second()@ is Pending),
        result is Ready ==> result->Ready_0 is Ok,
        result matches Poll::Ready(Ok((output1, output2))) ==> {
            &&& collapse_step(join.first()@, waker, InnerCollapsableFuture::Ready(output1))
            &&& collapse_step(join.second()@, waker, InnerCollapsableFuture::Ready(output2))
        },
        result is Pending ==> next.unspent(),
{
}

/// A task that finished in an earlier tick is not polled again while the
/// join waits for the other one: its wrapper, and the output in it, stay as
/// they are.
pub proof fn lemma_join_keeps_finished_output<F1: Task, F2: Task>(
    join: Join<F1, F2>,
    waker: Waker,
    result: Poll<Result<(F1::Output, F2::Output), InnerFutureSpentError>>,
    next: Join<F1, F2>,
)
    requires
        join.poll_spec(waker, result, next),
    ensures
        join.first()@ is Ready && result is Pending ==> next.first()@ == join.first()@,
        join.second()@ is Ready && result is Pending ==> next.second()@ == join.second()@,
        result matches Poll::Ready(Ok((output1, output2))) ==> {
            &&& join.first()@ is Ready ==> join.first()@ == InnerCollapsableFuture::<
                F1,
            >::Ready(output1)
            &&& join.second()@ is Ready ==> join.second()@ == InnerCollapsableFuture::<
                F2,
            >::Ready(output2)
        },
{
}

/// A join that has answered `Ready` answers `Ready` on every later poll. The
/// outputs have left it by then, so what it answers from there on is the
/// error.
pub proof fn lemma_join_stays_ready<F1: Task, F2: Task>(
    join: Join<F1, F2>,
    first_waker: Waker,
    first: Poll<Result<(F1::Output, F2::Output), InnerFutureSpentError>>,
    after_first: Join<F1, F2>,
    second_waker: Waker,
    second: Poll<Result<(F1::Output, F2::Output), InnerFutureSpentError>>,
    after_second: Join<F1, F2>,
)
    requires
        join.poll_spec(first_waker, first, after_first),
        first is Ready,
        after_first.poll_spec(second_waker, second, after_second),
    ensures
        second matches Poll::Ready(Err(_)),
        after_second.first()@ == after_first.first()@,
        after_second.second()@ == after_first.second()@,
{
}

} // verus!
