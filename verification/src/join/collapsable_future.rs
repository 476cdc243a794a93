//! A wrapper that remembers a task's output once the task has finished, so
//! that the task is never polled again and its output leaves exactly once.

use crate::task::{Poll, Task};
use crate::thread_waker::Waker;
use vstd::prelude::*;

verus! {

/// The three stages a wrapped task passes through, in this order and never
/// backwards.
pub enum InnerCollapsableFuture<F: Task> {
    /// The task has not answered `Ready` yet.
    Pending(F),
    /// The task has finished; its output waits to be extracted.
    Ready(F::Output),
    /// The output has been extracted, or the task was given up.
    Spent,
}

/// Reported when an output is asked of a wrapper that is already spent.
#[derive(Clone, Copy, Debug, PartialEq, Eq, Structural)]
pub struct InnerFutureSpentError;

/// A task adapter that may be polled again after the task has finished.
pub struct CollapsableFuture<F: Task>(InnerCollapsableFuture<F>);

/// What extracting from a wrapper in stage `state` returns.
pub open spec fn extract_spec<F: Task>(state: InnerCollapsableFuture<F>) -> Result<
    Option<F::Output>,
    InnerFutureSpentError,
> {
    match state {
        InnerCollapsableFuture::Pending(_) => Ok(None),
        InnerCollapsableFuture::Ready(output) => Ok(Some(output)),
        InnerCollapsableFuture::Spent => Err(InnerFutureSpentError),
    }
}

/// How one poll moves a wrapper from stage `state` to stage `next`.
///
/// While the task is pending the wrapper polls it with `waker`: the task
/// either stays pending, or answers `Ready` and the wrapper keeps the output.
/// A wrapper that keeps an output, and a spent one, stay as they are and the
/// task is not polled.
pub open spec fn collapse_step<F: Task>(
    state: InnerCollapsableFuture<F>,
    waker: Waker,
    next: InnerCollapsableFuture<F>,
) -> bool {
    match state {
        InnerCollapsableFuture::Pending(future) => match next {
            InnerCollapsableFuture::Pending(polled) => future.poll_spec(
                waker,
                Poll::Pending,
                polled,
            ),
            InnerCollapsableFuture::Ready(output) => exists|finished: F| #[trigger]
                future.poll_spec(waker, Poll::Ready(output), finished),
            InnerCollapsableFuture::Spent => false,
        },
        InnerCollapsableFuture::Ready(_) => next == state,
        InnerCollapsableFuture::Spent => next == state,
    }
}

/// What a poll answers that leaves the wrapper in stage `next`: completion
/// without the output once the task has finished, the error once the wrapper
/// is spent.
pub open spec fn collapse_answer<F: Task>(next: InnerCollapsableFuture<F>) -> Poll<
    Result<(), InnerFutureSpentError>,
> {
    match next {
        InnerCollapsableFuture::Pending(_) => Poll::Pending,
        InnerCollapsableFuture::Ready(_) => Poll::Ready(Ok(())),
        InnerCollapsableFuture::Spent => Poll::Ready(Err(InnerFutureSpentError)),
    }
}

impl<F: Task> InnerCollapsableFuture<F> {
    /// The first stage, holding a task that has not been polled through the
    /// wrapper.
    pub fn new(future: F) -> (state: Self)
        ensures
            state == InnerCollapsableFuture::Pending(future),
    {
        InnerCollapsableFuture::Pending(future)
    }

    /// Takes the stage apart: the output if there is one, nothing if the
    /// task had not finished, and the error if the stage is `Spent`.
    pub fn extract(self) -> (output: Result<Option<F::Output>, InnerFutureSpentError>)
        ensures
            output == extract_spec(self),
    {
        match self {
            InnerCollapsableFuture::Pending(_) => Ok(None),
            InnerCollapsableFuture::Ready(output) => Ok(Some(output)),
            InnerCollapsableFuture::Spent => Err(InnerFutureSpentError),
        }
    }
}

impl InnerFutureSpentError {
    /// The text that describes this error.
    pub fn message(&self) -> (text: String)
        ensures
            text@ == "Tried to extract output from spent future"@,
    {
        "Tried to extract output from spent future".to_owned()
    }
}

impl<F: Task> View for CollapsableFuture<F> {
    type V = InnerCollapsableFuture<F>;

    /// The stage the wrapper is in.
    closed spec fn view(&self) -> InnerCollapsableFuture<F> {
        self.0
    }
}

impl<F: Task> CollapsableFuture<F> {
    /// Wraps a task that has not finished.
    pub fn new(future: F) -> (wrapper: Self)
        ensures
            wrapper@ == InnerCollapsableFuture::Pending(future),
    {
        CollapsableFuture(InnerCollapsableFuture::new(future))
    }

    /// Takes the output out of the wrapper and leaves the wrapper spent.
    ///
    /// A finished task's output is returned once. A task that has not
    /// finished is dropped and nothing is returned. A wrapper that is already
    /// spent reports the error.
    pub fn extract(&mut self) -> (output: Result<Option<F::Output>, InnerFutureSpentError>)
        ensures
            output == extract_spec(old(self)@),
            final(self)@ is Spent,
    {
        let mut old_value = InnerCollapsableFuture::Spent;
        core::mem::swap(&mut self.0, &mut old_value);
        old_value.extract()
    }
}

impl<F: Task> Task for CollapsableFuture<F> {
    type Output = Result<(), InnerFutureSpentError>;

    /// The wrapper moves as `collapse_step` says and answers what
    /// `collapse_answer` reads off the stage it is left in.
    open spec fn poll_spec(
        &self,
        waker: Waker,
        result: Poll<Result<(), InnerFutureSpentError>>,
        next: Self,
    ) -> bool {
        &&& collapse_step(self@, waker, next@)
        &&& result == collapse_answer(next@)
    }

    open spec fn poll_bound(&self) -> Option<u64> {
        match self@ {
            InnerCollapsableFuture::Pending(future) => future.poll_bound(),
            _ => Some(0),
        }
    }

    fn poll(&mut self, waker: &Waker) -> (result: Poll<Result<(), InnerFutureSpentError>>) {
        let mut state = InnerCollapsableFuture::Spent;
        core::mem::swap(&mut self.0, &mut state);
        match state {
            InnerCollapsableFuture::Pending(mut future) => {
                let ghost before = future;
                match future.poll(waker) {
                    Poll::Ready(output) => {
                        assert(before.poll_spec(*waker, Poll::Ready(output), future));
                        self.0 = InnerCollapsableFuture::Ready(output);
                        assert(self@ matches InnerCollapsableFuture::Ready(kept) && kept == output);
                        Poll::Ready(Ok(()))
                    },
                    Poll::Pending => {
                        self.0 = InnerCollapsableFuture::Pending(future);
                        Poll::Pending
                    },
                }
            },
            InnerCollapsableFuture::Ready(output) => {
                self.0 = InnerCollapsableFuture::Ready(output);
                Poll::Ready(Ok(()))
            },
            InnerCollapsableFuture::Spent => Poll::Ready(Err(InnerFutureSpentError)),
        }
    }
}

/// An output leaves a wrapper at most once. The first extraction gives an
/// output only if the wrapper held that output, and it leaves the wrapper
/// spent; every extraction after it gives the error: never the output again,
/// and never nothing.
pub proof fn lemma_second_extract_is_spent<F: Task>(
    wrapper: CollapsableFuture<F>,
    first: Result<Option<F::Output>, InnerFutureSpentError>,
    after_first: CollapsableFuture<F>,
)
    requires
        first == extract_spec(wrapper@),
        after_first@ is Spent,
    ensures
        first matches Ok(Some(output)) ==> wrapper@ == InnerCollapsableFuture::<F>::Ready(output),
        first is Err <==> wrapper@ is Spent,
        extract_spec(after_first@) == Err::<Option<F::Output>, InnerFutureSpentError>(
            InnerFutureSpentError,
        ),
{
}

/// A wrapper that has reported completion reports the same on every later
/// poll and keeps the same output, whatever the wrapped task would do if it
/// were polled again: it is not polled again.
pub proof fn lemma_wrapper_stays_ready<F: Task>(
    wrapper: CollapsableFuture<F>,
    first_waker: Waker,
    first: Poll<Result<(), InnerFutureSpentError>>,
    after_first: CollapsableFuture<F>,
    second_waker: Waker,
    second: Poll<Result<(), InnerFutureSpentError>>,
    after_second: CollapsableFuture<F>,
)
    requires
        wrapper.poll_spec(first_waker, first, after_first),
        first is Ready,
        after_first.poll_spec(second_waker, second, after_second),
    ensures
        second == first,
        after_second@ == after_first@,
{
}

/// The stages follow one another in one direction only: no poll brings a
/// wrapper back to an earlier stage, and only a pending wrapper moves.
pub proof fn lemma_wrapper_moves_forward<F: Task>(
    wrapper: CollapsableFuture<F>,
    waker: Waker,
    result: Poll<Result<(), InnerFutureSpentError>>,
    next: CollapsableFuture<F>,
)
    requires
        wrapper.poll_spec(waker, result, next),
    ensures
        next@ is Pending ==> wrapper@ is Pending,
        next@ is Spent <==> wrapper@ is Spent,
        !(wrapper@ is Pending) ==> next@ == wrapper@,
        result is Pending <==> next@ is Pending,
        result matches Poll::Ready(Err(_)) <==> wrapper@ is Spent,
{
}

} // verus!
