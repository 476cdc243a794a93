use async_rust::fake_work::ThreadedFakeWorker;
use async_rust::task::Poll;
use async_rust::thread_timer::{ThreadTimer, WorkerPoll, WorkerState};
use async_rust::thread_waker::{ThreadWaker, Waker};
use std::time::Duration;

#[test]
fn timer_first_poll_asks_for_worker_and_is_pending() {
    let duration = Duration::from_secs(2);
    let mut timer = ThreadTimer::new(duration);
    assert_eq!(timer.worker_state(), WorkerState::NotStarted);
    assert_eq!(timer.duration(), duration);
    let step = timer.poll(&Waker::noop());
    assert_eq!(step, WorkerPoll { result: Poll::Pending, start_worker: Some(duration) });
    assert_eq!(timer.worker_state(), WorkerState::Running);
}

#[test]
fn timer_asks_for_worker_only_once() {
    let waker = ThreadWaker::current_thread(1).into_waker();
    let mut timer = ThreadTimer::new(Duration::from_millis(10));
    let mut requests = 0;
    for _ in 0..5 {
        let step = timer.poll(&waker);
        assert_eq!(step.result, Poll::Pending);
        if step.start_worker.is_some() {
            requests += 1;
        }
    }
    timer.complete();
    for _ in 0..5 {
        let step = timer.poll(&waker);
        assert_eq!(step.result, Poll::Ready(()));
        if step.start_worker.is_some() {
            requests += 1;
        }
    }
    assert_eq!(requests, 1);
}

#[test]
fn timer_is_ready_after_worker_completes_and_stays_ready() {
    let waker = Waker::noop();
    let mut timer = ThreadTimer::new(Duration::from_secs(1));
    assert_eq!(timer.poll(&waker).result, Poll::Pending);
    assert_eq!(timer.poll(&waker).result, Poll::Pending);
    timer.complete();
    assert_eq!(timer.worker_state(), WorkerState::Finished);
    assert_eq!(timer.poll(&waker), WorkerPoll { result: Poll::Ready(()), start_worker: None });
    assert_eq!(timer.poll(&waker), WorkerPoll { result: Poll::Ready(()), start_worker: None });
}

#[test]
fn timer_completion_targets_the_most_recent_poller() {
    let first = ThreadWaker::current_thread(1).into_waker();
    let second = ThreadWaker::current_thread(2).into_waker();
    let mut timer = ThreadTimer::new(Duration::from_secs(1));
    timer.poll(&first);
    timer.poll(&second);
    assert_eq!(timer.complete(), second);
}

#[test]
fn timer_completion_without_worker_or_twice_notifies_nobody() {
    let waker = ThreadWaker::current_thread(1).into_waker();
    let mut timer = ThreadTimer::new(Duration::from_secs(1));
    assert_eq!(timer.complete(), Waker::Noop);
    assert_eq!(timer.worker_state(), WorkerState::NotStarted);
    let step = timer.poll(&waker);
    assert_eq!(step.start_worker, Some(Duration::from_secs(1)));
    assert_eq!(timer.complete(), waker);
    assert_eq!(timer.complete(), Waker::Noop);
    assert_eq!(timer.worker_state(), WorkerState::Finished);
}

#[test]
fn zero_duration_timer_still_waits_for_its_worker() {
    let mut timer = ThreadTimer::new(Duration::ZERO);
    let step = timer.poll(&Waker::noop());
    assert_eq!(step, WorkerPoll { result: Poll::Pending, start_worker: Some(Duration::ZERO) });
}

#[test]
fn fake_work_first_poll_is_pending_whatever_the_worker() {
    let duration = Duration::from_secs(1);
    let mut work = ThreadedFakeWorker::new(duration);
    let step = work.poll(&Waker::noop(), true);
    assert_eq!(step, WorkerPoll { result: Poll::Pending, start_worker: Some(duration) });
}

#[test]
fn fake_work_is_ready_once_worker_has_ended() {
    let waker = ThreadWaker::current_thread(3).into_waker();
    let mut work = ThreadedFakeWorker::new(Duration::from_secs(1));
    assert_eq!(work.notify_target(), Waker::Noop);
    work.poll(&waker, false);
    assert_eq!(work.notify_target(), waker);
    assert_eq!(
        work.poll(&waker, false),
        WorkerPoll { result: Poll::Pending, start_worker: None }
    );
    assert_eq!(
        work.poll(&waker, true),
        WorkerPoll { result: Poll::Ready(()), start_worker: None }
    );
    assert_eq!(
        work.poll(&Waker::noop(), true),
        WorkerPoll { result: Poll::Ready(()), start_worker: None }
    );
    assert_eq!(work.notify_target(), Waker::Noop);
}
