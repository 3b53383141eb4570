//! The two-way fork primitive.
//!
//! `join_context` hands each closure an `FnContext` saying whether it was
//! migrated: executed by a worker other than the one that forked it. This
//! module's driver builds the right half into a single-shot stack job and
//! executes both halves on the calling thread, left first — the path
//! every fork takes when the queued right half is never stolen, and the
//! whole of what a one-worker pool ever does. A runtime that steals runs
//! the right half elsewhere with the migrated flag true; either way each
//! closure runs exactly once and its value is returned.
use vstd::prelude::*;

use crate::job::JobRef;
use crate::job::StackJob;
use crate::latch::LockLatch;

verus! {

/// What a forked closure is told about its execution: whether it was
/// called from a different thread than it was provided from.
pub struct FnContext {
    migrated: bool,
}

impl FnContext {
    pub closed spec fn spec_migrated(self) -> bool {
        self.migrated
    }

    /// The context value carrying the given migration flag.
    pub closed spec fn spec_new(migrated: bool) -> FnContext {
        FnContext { migrated }
    }

    pub fn new(migrated: bool) -> (r: Self)
        ensures
            r == FnContext::spec_new(migrated),
            r.spec_migrated() == migrated,
    {
        FnContext { migrated }
    }

    /// Whether the closure was executed by a worker other than the one
    /// that forked it.
    pub fn migrated(&self) -> (r: bool)
        ensures
            r == self.spec_migrated(),
    {
        self.migrated
    }
}

/// What the forking worker should do with what its local queue handed
/// back while it waits for its forked right half.
pub enum JoinAction {
    /// The popped job is the forked right half itself: run it in place.
    RunInline,
    /// Someone else's job came back first: execute it and keep waiting.
    Execute(JobRef),
    /// The local queue is empty: wait on the right half's latch, serving
    /// the pool meanwhile.
    Wait,
}

/// Classifies what the local queue handed back against the forked right
/// half's own handle: the waiting loop of a fork runs whatever this
/// decides, so the runtime that executes type-erased jobs carries no
/// decision of its own.
pub fn next_join_action(popped: Option<JobRef>, own: JobRef) -> (r: JoinAction)
    ensures
        r is RunInline <==> popped == Some(own),
        r is Wait <==> popped is None,
        popped is Some && popped != Some(own) ==> r is Execute && r->Execute_0 == popped->0,
{
    match popped {
        Some(job) => {
            if job == own {
                JoinAction::RunInline
            } else {
                JoinAction::Execute(job)
            }
        },
        None => JoinAction::Wait,
    }
}

/// Runs the two closures and returns both values, the left one's first.
///
/// Both closures run on the calling thread and neither migrates, so each
/// receives a context whose migrated flag is false; the contract promises
/// each result to be one the closure can return for such a context.
pub fn join_context<A, B, RA, RB>(op_a: A, op_b: B) -> (r: (RA, RB)) where
    A: FnOnce(FnContext) -> RA,
    B: FnOnce(FnContext) -> RB,

    requires
        call_requires(op_a, (FnContext::spec_new(false),)),
        call_requires(op_b, (FnContext::spec_new(false),)),
    ensures
        call_ensures(op_a, (FnContext::spec_new(false),), r.0),
        call_ensures(op_b, (FnContext::spec_new(false),), r.1),
{
    let call_b = (|migrated: bool| -> (r: RB)
        requires
            call_requires(op_b, (FnContext::spec_new(migrated),)),
        ensures
            call_ensures(op_b, (FnContext::spec_new(migrated),), r),
        {
            op_b(FnContext::new(migrated))
        });
    let job_b = StackJob::new(call_b, LockLatch::new());

    let result_a = op_a(FnContext::new(false));

    // Nothing stole the right half: run it in place, unmigrated.
    let result_b = job_b.run_inline(false);
    (result_a, result_b)
}

} // verus!
