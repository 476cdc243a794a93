//! A leaf task whose work is a timed wait done by a background worker.
//!
//! The task itself never blocks. Its first poll asks the caller to start the
//! worker; the worker's last act is `complete`, which raises the completion
//! flag and yields the handle to notify. The task and the worker share this
//! one value, and whoever touches it holds the lock around it.

use crate::task::Poll;
use crate::thread_waker::{TokenView, Waker};
use std::time::Duration;
use vstd::prelude::*;

verus! {

/// The life of a leaf task's background worker. It only moves forward.
#[derive(Clone, Copy, Debug, PartialEq, Eq, Structural)]
pub enum WorkerState {
    /// No poll has happened; no worker exists.
    NotStarted,
    /// The worker was asked for and has not reported completion.
    Running,
    /// The worker has reported completion.
    Finished,
}

/// What one poll of a leaf task comes to: the answer, and the wait the
/// caller has to start a background worker for, if this poll asks for one.
#[derive(Clone, Copy, Debug, PartialEq, Eq)]
pub struct WorkerPoll {
    pub result: Poll<()>,
    pub start_worker: Option<Duration>,
}

/// Something that happens to a leaf task.
pub enum TimerEvent {
    /// The task is polled with this handle.
    Poll(Waker),
    /// The background worker reports that the wait is over.
    WorkerDone,
}

/// The state of a `ThreadTimer` as contracts see it.
pub struct TimerView {
    pub duration: Duration,
    pub worker: WorkerState,
    pub waker: Waker,
}

/// A task that completes once a background worker has waited for `duration`.
#[derive(Debug)]
pub struct ThreadTimer {
    duration: Duration,
    worker: WorkerState,
    waker: Waker,
}

impl TimerView {
    /// The answer of a poll that finds the timer in this state. A worker is
    /// asked for exactly when none was started, and the task is ready
    /// exactly when the worker has reported completion.
    pub open spec fn poll_answer(self) -> WorkerPoll {
        WorkerPoll {
            result: if self.worker is Finished {
                Poll::Ready(())
            } else {
                Poll::Pending
            },
            start_worker: if self.worker is NotStarted {
                Some(self.duration)
            } else {
                None
            },
        }
    }

    /// The state a poll with `waker` leaves behind: the handle replaces the
    /// stored one, and a worker that was not started counts as running.
    pub open spec fn after_poll(self, waker: Waker) -> TimerView {
        TimerView {
            duration: self.duration,
            worker: if self.worker is NotStarted {
                WorkerState::Running
            } else {
                self.worker
            },
            waker,
        }
    }

    /// The handle the worker has to notify when it reports completion: the
    /// stored one if the worker was running, nobody otherwise.
    pub open spec fn completion_target(self) -> Waker {
        if self.worker is Running {
            self.waker
        } else {
            Waker::Noop
        }
    }

    /// The state after the worker has reported completion.
    pub open spec fn after_complete(self) -> TimerView {
        TimerView {
            duration: self.duration,
            worker: if self.worker is Running {
                WorkerState::Finished
            } else {
                self.worker
            },
            waker: self.waker,
        }
    }

    /// The state after one event.
    pub open spec fn after_event(self, event: TimerEvent) -> TimerView {
        match event {
            TimerEvent::Poll(waker) => self.after_poll(waker),
            TimerEvent::WorkerDone => self.after_complete(),
        }
    }

    /// The state after a run of events, oldest first.
    pub open spec fn after_events(self, events: Seq<TimerEvent>) -> TimerView
        decreases events.len(),
    {
        if events.len() == 0 {
            self
        } else {
            self.after_events(events.drop_last()).after_event(events.last())
        }
    }

    /// How many polls in a run of events ask for a worker to be started.
    pub open spec fn workers_started(self, events: Seq<TimerEvent>) -> nat
        decreases events.len(),
    {
        if events.len() == 0 {
            0
        } else {
            let earlier = events.drop_last();
            let asked: nat = if events.last() is Poll && self.after_events(earlier).worker
                is NotStarted {
                1
            } else {
                0
            };
            self.workers_started(earlier) + asked
        }
    }
}

impl View for ThreadTimer {
    type V = TimerView;

    closed spec fn view(&self) -> TimerView {
        TimerView { duration: self.duration, worker: self.worker, waker: self.waker }
    }
}

impl ThreadTimer {
    /// A timer for `duration` whose worker has not been started and whose
    /// stored handle notifies nobody.
    pub fn new(duration: Duration) -> (timer: Self)
        ensures
            timer@ == (TimerView {
                duration,
                worker: WorkerState::NotStarted,
                waker: Waker::Noop,
            }),
    {
        ThreadTimer { duration, worker: WorkerState::NotStarted, waker: Waker::Noop }
    }

    /// Polls the timer. The handle is stored first, on every poll; then a
    /// worker is asked for if none was started; then the completion flag
    /// decides the answer.
    pub fn poll(&mut self, waker: &Waker) -> (out: WorkerPoll)
        ensures
            out == old(self)@.poll_answer(),
            final(self)@ == old(self)@.after_poll(*waker),
    {
        self.waker = *waker;
        let start_worker = match self.worker {
            WorkerState::NotStarted => {
                self.worker = WorkerState::Running;
                Some(self.duration)
            },
            _ => None,
        };
        let result = match self.worker {
            WorkerState::Finished => Poll::Ready(()),
            _ => Poll::Pending,
        };
        WorkerPoll { result, start_worker }
    }

    /// The worker's report that the wait is over: raises the completion flag
    /// and returns the handle the worker has to notify.
    pub fn complete(&mut self) -> (target: Waker)
        ensures
            target == old(self)@.completion_target(),
            final(self)@ == old(self)@.after_complete(),
    {
        match self.worker {
            WorkerState::Running => {
                self.worker = WorkerState::Finished;
                self.waker
            },
            _ => Waker::Noop,
        }
    }

    /// Where the worker stands.
    pub fn worker_state(&self) -> (state: WorkerState)
        ensures
            state == self@.worker,
    {
        self.worker
    }

    /// The wait the worker is to do.
    pub fn duration(&self) -> (duration: Duration)
        ensures
            duration == self@.duration,
    {
        self.duration
    }
}

/// Over any run of events at most one poll asks for a worker, and for a
/// timer that starts without one exactly the first poll does, however many
/// polls follow.
pub proof fn lemma_single_worker_start(timer: TimerView, events: Seq<TimerEvent>)
    ensures
        timer.workers_started(events) <= 1,
        timer.workers_started(events) == 1 <==> (timer.worker is NotStarted && exists|i: int|
            0 <= i < events.len() && events[i] is Poll),
        timer.after_events(events).worker is NotStarted <==> (timer.worker is NotStarted
            && forall|i: int| 0 <= i < events.len() ==> !(events[i] is Poll)),
    decreases events.len(),
{
    if events.len() > 0 {
        let earlier = events.drop_last();
        lemma_single_worker_start(timer, earlier);
        assert(forall|i: int| 0 <= i < earlier.len() ==> earlier[i] == events[i]);
        if timer.worker is NotStarted {
            if exists|i: int| 0 <= i < events.len() && events[i] is Poll {
                let i = choose|i: int| 0 <= i < events.len() && events[i] is Poll;
                if i < earlier.len() {
                    assert(earlier[i] is Poll);
                }
            }
            if exists|i: int| 0 <= i < earlier.len() && earlier[i] is Poll {
                let i = choose|i: int| 0 <= i < earlier.len() && earlier[i] is Poll;
                assert(events[i] is Poll);
            }
            if events.last() is Poll {
                assert(events[events.len() - 1] is Poll);
            }
        }
    }
}

/// Once the worker has reported completion, the timer answers `Ready` to
/// every later poll, whatever happens in between and whichever handle it is
/// polled with.
pub proof fn lemma_timer_stays_ready(timer: TimerView, events: Seq<TimerEvent>)
    requires
        timer.worker is Finished,
    ensures
        timer.after_events(events).worker is Finished,
        timer.after_events(events).poll_answer().result == Poll::Ready(()),
        timer.after_events(events).poll_answer().start_worker is None,
    decreases events.len(),
{
    if events.len() > 0 {
        lemma_timer_stays_ready(timer, events.drop_last());
    }
}

/// The stored handle is always the one of the most recent poll: a run of
/// events that ends in a poll stores that poll's handle, and the worker's
/// report leaves the stored handle alone.
pub proof fn lemma_timer_keeps_latest_handle(
    timer: TimerView,
    events: Seq<TimerEvent>,
    waker: Waker,
)
    ensures
        timer.after_events(events.push(TimerEvent::Poll(waker))).waker == waker,
        timer.after_events(events.push(TimerEvent::WorkerDone)).waker == timer.after_events(
            events,
        ).waker,
{
    let polled = events.push(TimerEvent::Poll(waker));
    assert(polled.drop_last() == events);
    let done = events.push(TimerEvent::WorkerDone);
    assert(done.drop_last() == events);
}

/// A worker that finishes while its timer is running is reported to the
/// handle of the most recent poll, and the next poll answers `Ready`.
pub proof fn lemma_completion_reaches_latest_poller(timer: TimerView, waker: Waker)
    requires
        !(timer.worker is Finished),
    ensures
        timer.after_poll(waker).completion_target() == waker,
        timer.after_poll(waker).after_complete().poll_answer().result == Poll::Ready(()),
{
}

/// No wake-up is missed. A poll first stores the handle and then reads the
/// flag, so either the poll already sees the worker's report, or the report
/// comes later and notifies the handle of that very poll: the poller's token
/// then holds a wake, whether or not the poller has suspended yet, and the
/// next poll is ready.
pub proof fn lemma_no_missed_wakeup(timer: TimerView, token: TokenView, waker: Waker)
    requires
        waker.targets(token.owner),
    ensures
        timer.worker is Finished ==> timer.poll_answer().result == Poll::Ready(()),
        !(timer.worker is Finished) ==> {
            let polled = timer.after_poll(waker);
            &&& timer.poll_answer().result is Pending
            &&& polled.worker is Running
            &&& token.after_wake(polled.completion_target()).pending
            &&& polled.after_complete().poll_answer().result == Poll::Ready(())
        },
{
}

} // verus!
