//! A miniature cooperative task-execution core.
//!
//! A task is polled with a notification handle and answers `Ready` or
//! `Pending`. Leaf tasks hand their blocking work to a background worker,
//! `Join` combines two tasks into one, and the executor module drives a task
//! to completion. Everything here is plain data and verified transitions; the
//! threads that run the workers and put the driver to sleep live outside.

pub mod fake_work;
pub mod fake_worker;
pub mod join;
pub mod task;
pub mod thread_executor;
pub mod thread_timer;
pub mod thread_waker;
