//! Units of work.
//!
//! A `StackJob` owns a single-shot closure slot, a result slot and the
//! latch that announces completion; it lives on the forking frame, which
//! must not be torn down before the latch is observed set. A `JobRef` is
//! the type-erased handle under which such a job travels through the
//! queues: an opaque pair of tokens that the runtime embedding this
//! library maps back to the callable.
use vstd::prelude::*;

use crate::latch::Latch;

verus! {

/// A type-erased reference to a queued unit of work: a payload token and
/// a dispatch token, compared as a pair to recognize one's own job when it
/// comes back off a queue.
#[derive(Copy, Clone, Debug, PartialEq, Eq, Structural)]
pub struct JobRef {
    pub pointer: u64,
    pub execute_fn: u64,
}

impl JobRef {
    pub fn new(pointer: u64, execute_fn: u64) -> (r: JobRef)
        ensures
            r.pointer == pointer,
            r.execute_fn == execute_fn,
    {
        JobRef { pointer, execute_fn }
    }

    /// The identity under which two handles are compared.
    pub fn id(&self) -> (r: (u64, u64))
        ensures
            r == (self.pointer, self.execute_fn),
    {
        (self.pointer, self.execute_fn)
    }
}

/// The result slot of a job: empty until the job ran, then the returned
/// value. A closure that panics leaves the mark instead; the capture of
/// the panic payload itself is the unverified runtime's business, and the
/// library's verified closures return whenever their contracts are met.
pub enum JobResult<T> {
    Pending,
    Done(T),
    Panicked,
}

impl<T> JobResult<T> {
    /// Runs `func` in the stolen position (the flag it receives says so)
    /// and stores its value.
    pub fn call<F: FnOnce(bool) -> T>(func: F) -> (r: JobResult<T>)
        requires
            call_requires(func, (true,)),
        ensures
            r is Done && call_ensures(func, (true,), r->Done_0),
    {
        JobResult::Done(func(true))
    }

    /// Drains a populated slot. A job that panicked re-raises at this
    /// point, on the thread that consumes the result, never on the
    /// executor; the verified callers only drain slots their contracts
    /// show completed.
    pub fn into_return_value(self) -> (r: T)
        requires
            self is Done,
        ensures
            r == self->Done_0,
    {
        match self {
            JobResult::Pending => vstd::pervasive::unreached(),
            JobResult::Done(x) => x,
            JobResult::Panicked => vstd::pervasive::unreached(),
        }
    }
}

/// A job allocated on the forking frame: a closure slot taken at most
/// once, the result slot it fills, and the latch set after the result is
/// in place.
#[verifier::reject_recursive_types(R)]
pub struct StackJob<L, F, R> where L: Latch, F: FnOnce(bool) -> R {
    latch: L,
    func: Option<F>,
    result: JobResult<R>,
}

impl<L, F, R> StackJob<L, F, R> where L: Latch, F: FnOnce(bool) -> R {
    /// Whether the closure slot has been drained; it starts full and no
    /// operation refills it, which is what makes the job single-shot.
    pub closed spec fn func_taken(self) -> bool {
        self.func is None
    }

    /// The closure the slot holds.
    pub closed spec fn spec_func(self) -> F {
        self.func->0
    }

    /// Whether the result slot has been populated with a value.
    pub closed spec fn completed(self) -> bool {
        self.result is Done
    }

    /// The value the result slot holds.
    pub closed spec fn spec_result(self) -> R {
        self.result->Done_0
    }

    /// The latch the job will set on completion.
    pub closed spec fn spec_latch(self) -> L {
        self.latch
    }

    /// Borrows the completion latch, for a waiter to probe.
    pub fn latch(&self) -> (r: &L)
        ensures
            r == self.spec_latch(),
    {
        &self.latch
    }

    pub fn new(func: F, latch: L) -> (r: StackJob<L, F, R>)
        ensures
            !r.func_taken(),
            !r.completed(),
            r.spec_func() == func,
            r.spec_latch() == latch,
    {
        StackJob { latch, func: Some(func), result: JobResult::Pending }
    }

    /// Executes the job in the stolen position: drains the closure slot,
    /// runs the closure, populates the result slot, and only then sets
    /// the latch, so that a waiter that saw the latch finds the result.
    pub fn execute(&mut self)
        requires
            !old(self).func_taken(),
            call_requires(old(self).spec_func(), (true,)),
            old(self).spec_latch().can_set(),
        ensures
            final(self).func_taken(),
            final(self).completed(),
            final(self).spec_latch() == old(self).spec_latch(),
            call_ensures(old(self).spec_func(), (true,), final(self).spec_result()),
    {
        let func = self.func.take().unwrap();
        self.result = JobResult::call(func);
        self.latch.set();
    }

    /// Runs the closure in place, on the forking thread, with the flag
    /// telling it whether it was stolen first; the latch is not touched,
    /// since the caller holds the job and is not waiting.
    pub fn run_inline(self, stolen: bool) -> (r: R)
        requires
            !self.func_taken(),
            call_requires(self.spec_func(), (stolen,)),
        ensures
            call_ensures(self.spec_func(), (stolen,), r),
    {
        let func = self.func.unwrap();
        func(stolen)
    }

    /// Drains the result of a completed job.
    pub fn into_result(self) -> (r: R)
        requires
            self.completed(),
        ensures
            r == self.spec_result(),
    {
        self.result.into_return_value()
    }
}

} // verus!
