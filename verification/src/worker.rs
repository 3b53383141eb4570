//! A worker of the pool: the owner of one FIFO queue, looking for work
//! in the fixed order local queue, then peers, then the shared injector.
//!
//! The dispatch loop that executes what is found, and the thread-local
//! record of "the current worker", belong to the runtime embedding this
//! library; the worker here supplies the queue discipline the loop runs
//! on.
use vstd::prelude::*;

use std::sync::Arc;

use crossbeam_deque::Stealer;
use crossbeam_deque::Worker;

use crate::deque::StealResult;
use crate::deque::stealer_is_empty;
use crate::deque::stealer_steal;
use crate::deque::worker_is_empty;
use crate::deque::worker_pop;
use crate::deque::worker_push;
use crate::deque::worker_stealer;
use crate::job::JobRef;
use crate::registry::Registry;

verus! {

/// One worker: its own queue, a stealing handle onto that same queue,
/// its index in the pool, and a shared handle to the registry.
pub struct WorkerThread {
    worker: Worker<JobRef>,
    stealer: Stealer<JobRef>,
    index: usize,
    registry: Arc<Registry>,
}

impl WorkerThread {
    /// The worker's index in the pool.
    pub closed spec fn spec_index(&self) -> usize {
        self.index
    }

    /// The registry the worker belongs to.
    pub closed spec fn spec_registry(&self) -> Registry {
        *self.registry
    }

    /// A worker is coherent when its registry is and its index names one
    /// of the registry's workers.
    pub open spec fn wf(&self) -> bool {
        self.spec_registry().wf() && self.spec_index() < self.spec_registry().spec_num_threads()
    }

    pub fn new(worker: Worker<JobRef>, registry: Arc<Registry>, index: usize) -> (r: WorkerThread)
        requires
            registry.wf(),
            index < registry.spec_num_threads(),
        ensures
            r.wf(),
            r.spec_index() == index,
            r.spec_registry() == *registry,
    {
        let stealer = worker_stealer(&worker);
        WorkerThread { worker, stealer, index, registry }
    }

    pub fn registry(&self) -> (r: &Arc<Registry>)
        ensures
            **r == self.spec_registry(),
    {
        &self.registry
    }

    pub fn index(&self) -> (r: usize)
        ensures
            r == self.spec_index(),
    {
        self.index
    }

    /// Pushes a job onto the worker's own queue and signals the sleep
    /// coordinator, which wakes sleepers toward the new work.
    pub fn push(&self, job: JobRef)
        requires
            self.wf(),
    {
        let queue_was_empty = worker_is_empty(&self.worker);
        worker_push(&self.worker, job);
        self.registry.sleep().new_internal_jobs(1, queue_was_empty);
    }

    /// Takes a job from the worker's own queue: first through the owner's
    /// popping end, then through its own stealing handle. Collisions with
    /// concurrent steals are retried; a run of `u64::MAX` collisions in a
    /// row is treated like an empty queue, so that even that run ends.
    pub fn take_local_job(&self) -> Option<JobRef> {
        let popped_job = worker_pop(&self.worker);
        if popped_job.is_some() {
            return popped_job;
        }
        let mut fuel: u64 = u64::MAX;
        while fuel > 0
            decreases fuel,
        {
            fuel = fuel - 1;
            match stealer_steal(&self.stealer) {
                StealResult::Success(job) => { return Some(job) },
                StealResult::Empty => { return None },
                StealResult::Retry => {},
            }
        }
        None
    }

    /// Steals one job from a peer, scanning the victims in index order
    /// and skipping itself. In a pool of one worker there is no peer, so
    /// the answer is nothing without any queue being touched. A scan that
    /// saw only empty queues and at least one collision is repeated; a
    /// run of `u64::MAX` such scans in a row gives up empty-handed, so
    /// that even that run ends.
    pub fn steal(&self) -> (r: Option<JobRef>)
        requires
            self.wf(),
        ensures
            self.spec_registry().spec_num_threads() <= 1 ==> r is None,
    {
        let num_threads = self.registry.num_threads();
        if num_threads <= 1 {
            return None;
        }
        let mut fuel: u64 = u64::MAX;
        while fuel > 0
            invariant
                self.wf(),
                num_threads == self.spec_registry().spec_num_threads(),
                num_threads > 1,
            decreases fuel,
        {
            fuel = fuel - 1;
            let mut retry = false;
            let mut victim_index: usize = 0;
            let mut found: Option<JobRef> = None;
            while victim_index < num_threads && found.is_none()
                invariant
                    self.wf(),
                    num_threads == self.spec_registry().spec_num_threads(),
                    num_threads > 1,
                decreases num_threads - victim_index,
            {
                if victim_index != self.index {
                    let victim = self.registry.thread_info(victim_index);
                    match stealer_steal(&victim.stealer) {
                        StealResult::Success(job) => {
                            found = Some(job);
                        },
                        StealResult::Empty => {},
                        StealResult::Retry => {
                            retry = true;
                        },
                    }
                }
                victim_index = victim_index + 1;
            }
            if found.is_some() || !retry {
                return found;
            }
        }
        None
    }

    /// Looks for work in the order the pool prefers it: the worker's own
    /// queue, then its peers, then the shared injector.
    pub fn find_work(&self) -> Option<JobRef>
        requires
            self.wf(),
    {
        match self.take_local_job() {
            Some(job) => Some(job),
            None => match self.steal() {
                Some(job) => Some(job),
                None => self.registry.pop_injected_job(),
            },
        }
    }

    /// Whether work is visible that did not come off the worker's own
    /// popping end: its queue as seen by stealers, or the injector.
    pub fn has_injected_job(&self) -> bool {
        !stealer_is_empty(&self.stealer) || self.registry.has_injected_job()
    }
}

} // verus!
