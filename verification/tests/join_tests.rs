use async_rust::fake_worker::FakeWorker;
use async_rust::join::collapsable_future::{
    CollapsableFuture, InnerCollapsableFuture, InnerFutureSpentError,
};
use async_rust::join::Join;
use async_rust::task::{Poll, Task};
use async_rust::thread_executor::execute;
use async_rust::thread_waker::Waker;

/// Answers `Pending` as often as told, then `Ready` with its label, and
/// counts how often it is polled.
struct Labelled {
    pending_left: u32,
    label: &'static str,
    polls: u32,
}

impl Labelled {
    fn new(pending_left: u32, label: &'static str) -> Self {
        Labelled { pending_left, label, polls: 0 }
    }
}

impl Task for Labelled {
    type Output = (&'static str, u32);

    fn poll(&mut self, _waker: &Waker) -> Poll<(&'static str, u32)> {
        self.polls += 1;
        if self.pending_left == 0 {
            Poll::Ready((self.label, self.polls))
        } else {
            self.pending_left -= 1;
            Poll::Pending
        }
    }
}

#[test]
fn join_of_three_and_zero_needs_pending_polls_first() {
    let waker = Waker::noop();
    let mut join = Join::new(FakeWorker { work_remaining: 3 }, FakeWorker { work_remaining: 0 });
    assert_eq!(join.poll(&waker), Poll::Pending);
    assert_eq!(join.poll(&waker), Poll::Pending);
    assert_eq!(join.poll(&waker), Poll::Pending);
    assert_eq!(join.poll(&waker), Poll::Ready(Ok(("All done!", "All done!"))));
}

#[test]
fn join_of_two_finished_tasks_completes_at_once() {
    let mut join = Join::new(FakeWorker { work_remaining: 0 }, FakeWorker { work_remaining: 0 });
    assert_eq!(join.poll(&Waker::noop()), Poll::Ready(Ok(("All done!", "All done!"))));
}

#[test]
fn join_keeps_positional_order_when_second_finishes_first() {
    let waker = Waker::noop();
    let mut join = Join::new(Labelled::new(2, "slow"), Labelled::new(0, "fast"));
    assert_eq!(join.poll(&waker), Poll::Pending);
    assert_eq!(join.poll(&waker), Poll::Pending);
    // The fast task was polled once and never again; the slow one three times.
    assert_eq!(join.poll(&waker), Poll::Ready(Ok((("slow", 3), ("fast", 1)))));
}

#[test]
fn join_keeps_positional_order_when_first_finishes_first() {
    let waker = Waker::noop();
    let mut join = Join::new(Labelled::new(0, "fast"), Labelled::new(1, "slow"));
    assert_eq!(join.poll(&waker), Poll::Pending);
    assert_eq!(join.poll(&waker), Poll::Ready(Ok((("fast", 1), ("slow", 2)))));
}

#[test]
fn join_polled_after_completion_reports_spent() {
    let waker = Waker::noop();
    let mut join = Join::new(FakeWorker { work_remaining: 0 }, FakeWorker { work_remaining: 1 });
    assert_eq!(join.poll(&waker), Poll::Pending);
    assert!(matches!(join.poll(&waker), Poll::Ready(Ok(_))));
    assert_eq!(join.poll(&waker), Poll::Ready(Err(InnerFutureSpentError)));
    assert_eq!(join.poll(&waker), Poll::Ready(Err(InnerFutureSpentError)));
}

#[test]
fn join_of_joins_pairs_all_outputs() {
    let inner = Join::new(Labelled::new(1, "a"), Labelled::new(3, "b"));
    let outer = Join::new(inner, Labelled::new(2, "c"));
    let (output, pending_polls) = execute_labelled(outer);
    assert_eq!(output, Ok((Ok((("a", 2), ("b", 4))), ("c", 3))));
    assert_eq!(pending_polls, 3);
}

fn execute_labelled<T: Task>(mut task: T) -> (T::Output, u64) {
    let waker = Waker::noop();
    let mut pending_polls = 0;
    loop {
        match task.poll(&waker) {
            Poll::Ready(output) => return (output, pending_polls),
            Poll::Pending => pending_polls += 1,
        }
    }
}

#[test]
fn execute_runs_a_join_to_completion() {
    let join = Join::new(FakeWorker { work_remaining: 3 }, FakeWorker { work_remaining: 0 });
    assert_eq!(execute(join), (Ok(("All done!", "All done!")), 3));
}

#[test]
fn wrapper_reports_completion_repeatedly_until_extracted() {
    let waker = Waker::noop();
    let mut wrapper = CollapsableFuture::new(Labelled::new(1, "x"));
    assert_eq!(wrapper.poll(&waker), Poll::Pending);
    assert_eq!(wrapper.poll(&waker), Poll::Ready(Ok(())));
    assert_eq!(wrapper.poll(&waker), Poll::Ready(Ok(())));
    assert_eq!(wrapper.poll(&waker), Poll::Ready(Ok(())));
    // Polled twice in all: the later polls did not reach the task.
    assert_eq!(wrapper.extract(), Ok(Some(("x", 2))));
}

#[test]
fn second_extract_is_the_spent_error() {
    let waker = Waker::noop();
    let mut wrapper = CollapsableFuture::new(FakeWorker { work_remaining: 0 });
    assert_eq!(wrapper.poll(&waker), Poll::Ready(Ok(())));
    assert_eq!(wrapper.extract(), Ok(Some("All done!")));
    assert_eq!(wrapper.extract(), Err(InnerFutureSpentError));
    assert_eq!(wrapper.extract(), Err(InnerFutureSpentError));
    assert_eq!(wrapper.poll(&waker), Poll::Ready(Err(InnerFutureSpentError)));
}

#[test]
fn extract_before_completion_returns_nothing_and_spends_the_wrapper() {
    let waker = Waker::noop();
    let mut wrapper = CollapsableFuture::new(FakeWorker { work_remaining: 2 });
    assert_eq!(wrapper.poll(&waker), Poll::Pending);
    assert_eq!(wrapper.extract(), Ok(None));
    assert_eq!(wrapper.poll(&waker), Poll::Ready(Err(InnerFutureSpentError)));
    assert_eq!(wrapper.extract(), Err(InnerFutureSpentError));
}

#[test]
fn spent_error_message() {
    assert_eq!(InnerFutureSpentError.message(), "Tried to extract output from spent future");
}

#[test]
fn stages_are_taken_apart_as_they_stand() {
    let pending = InnerCollapsableFuture::new(FakeWorker { work_remaining: 1 });
    assert!(matches!(pending, InnerCollapsableFuture::Pending(FakeWorker { work_remaining: 1 })));
    assert_eq!(pending.extract(), Ok(None));
    let ready: InnerCollapsableFuture<FakeWorker> = InnerCollapsableFuture::Ready("out");
    assert_eq!(ready.extract(), Ok(Some("out")));
    let spent: InnerCollapsableFuture<FakeWorker> = InnerCollapsableFuture::Spent;
    assert_eq!(spent.extract(), Err(InnerFutureSpentError));
}
