//! Trusted shims over the lock-free queues of crossbeam_deque.
//!
//! Each worker owns a FIFO `Worker` queue; its `Stealer` handles and the
//! shared `Injector` alias the same storage and are raced on by every
//! thread, through shared references. No contract can therefore relate
//! one access to the next; what each call did to the queue at some
//! instant is stated in the doc comment, and the scheduling logic above
//! these shims is verified for every answer they can give.
use vstd::prelude::*;

use crossbeam_deque::Injector;
use crossbeam_deque::Stealer;
use crossbeam_deque::Worker;

use crate::job::JobRef;

verus! {

#[verifier::external_type_specification]
#[verifier::external_body]
#[verifier::reject_recursive_types(T)]
pub struct ExWorker<T>(Worker<T>);

#[verifier::external_type_specification]
#[verifier::external_body]
#[verifier::reject_recursive_types(T)]
pub struct ExStealer<T>(Stealer<T>);

#[verifier::external_type_specification]
#[verifier::external_body]
#[verifier::reject_recursive_types(T)]
pub struct ExInjector<T>(Injector<T>);

/// What one steal attempt yielded: a task, the sight of an empty queue,
/// or a collision with a concurrent operation that the caller may retry.
pub enum StealResult {
    Success(JobRef),
    Empty,
    Retry,
}

/// Relies on crossbeam_deque::Worker::new_fifo: makes a fresh, empty
/// queue whose tasks are pushed and popped at opposite ends.
#[verifier::external_body]
pub(crate) fn worker_new_fifo() -> Worker<JobRef> {
    Worker::new_fifo()
}

/// Relies on crossbeam_deque::Worker::stealer: hands out a stealing
/// handle onto the same queue.
#[verifier::external_body]
pub(crate) fn worker_stealer(w: &Worker<JobRef>) -> Stealer<JobRef> {
    w.stealer()
}

/// Relies on crossbeam_deque::Worker::is_empty: whether the queue held no
/// task at the instant of the check.
#[verifier::external_body]
pub(crate) fn worker_is_empty(w: &Worker<JobRef>) -> bool {
    w.is_empty()
}

/// Relies on crossbeam_deque::Worker::push: appends the task to the
/// owner's end of the queue.
#[verifier::external_body]
pub(crate) fn worker_push(w: &Worker<JobRef>, job: JobRef) {
    w.push(job);
}

/// Relies on crossbeam_deque::Worker::pop: takes the task at the owner's
/// popping end, or answers nothing on an empty queue.
#[verifier::external_body]
pub(crate) fn worker_pop(w: &Worker<JobRef>) -> Option<JobRef> {
    w.pop()
}

/// Relies on crossbeam_deque::Stealer::steal: takes the task at the front
/// of the queue, sees it empty, or loses a race it reports as a retry;
/// the arms of crossbeam's answer are mapped one to one.
#[verifier::external_body]
pub(crate) fn stealer_steal(s: &Stealer<JobRef>) -> StealResult {
    match s.steal() {
        crossbeam_deque::Steal::Success(job) => StealResult::Success(job),
        crossbeam_deque::Steal::Empty => StealResult::Empty,
        crossbeam_deque::Steal::Retry => StealResult::Retry,
    }
}

/// Relies on crossbeam_deque::Stealer::is_empty: whether the queue held
/// no task at the instant of the check.
#[verifier::external_body]
pub(crate) fn stealer_is_empty(s: &Stealer<JobRef>) -> bool {
    s.is_empty()
}

/// Relies on crossbeam_deque::Injector::new: makes a fresh, empty
/// multi-producer queue.
#[verifier::external_body]
pub(crate) fn injector_new() -> Injector<JobRef> {
    Injector::new()
}

/// Relies on crossbeam_deque::Injector::push: appends the task to the
/// back of the shared queue.
#[verifier::external_body]
pub(crate) fn injector_push(inj: &Injector<JobRef>, job: JobRef) {
    inj.push(job);
}

/// Relies on crossbeam_deque::Injector::steal: takes the task at the
/// front of the shared queue, sees it empty, or loses a race it reports
/// as a retry; the arms of crossbeam's answer are mapped one to one.
#[verifier::external_body]
pub(crate) fn injector_steal(inj: &Injector<JobRef>) -> StealResult {
    match inj.steal() {
        crossbeam_deque::Steal::Success(job) => StealResult::Success(job),
        crossbeam_deque::Steal::Empty => StealResult::Empty,
        crossbeam_deque::Steal::Retry => StealResult::Retry,
    }
}

/// Relies on crossbeam_deque::Injector::is_empty: whether the shared
/// queue held no task at the instant of the check.
#[verifier::external_body]
pub(crate) fn injector_is_empty(inj: &Injector<JobRef>) -> bool {
    inj.is_empty()
}

} // verus!
