//! The registry: the process-wide container of a pool.
//!
//! It owns one `ThreadInfo` per worker (the worker's latches and a
//! stealing handle onto its queue), the shared injector queue for
//! externally submitted jobs, and the sleep coordinator. Spawning the
//! operating-system threads that run the workers, and the thread-local
//! bookkeeping of "the current worker", belong to the runtime embedding
//! this library: `new` builds the registry and hands the workers back for
//! the embedder to run.
use vstd::prelude::*;

use std::sync::Arc;

use crossbeam_deque::Injector;
use crossbeam_deque::Stealer;

use crate::counter::THREADS_MAX;
use crate::deque::StealResult;
use crate::deque::injector_is_empty;
use crate::deque::injector_new;
use crate::deque::injector_push;
use crate::deque::injector_steal;
use crate::deque::worker_new_fifo;
use crate::deque::worker_stealer;
use crate::job::JobRef;
use crate::latch::LockLatch;
use crate::latch::OnceLatch;
use crate::sleep::Sleep;
use crate::worker::WorkerThread;

verus! {

/// The pool size used where none is configured.
pub const DEFAULT_NUM_THREADS: usize = 10;

/// The one recognized pool option: how many worker threads to build.
pub struct ThreadPoolBuilder {
    pub num_threads: usize,
}

impl Default for ThreadPoolBuilder {
    /// The default pool size.
    fn default() -> (r: Self)
        ensures
            r.num_threads == DEFAULT_NUM_THREADS,
    {
        ThreadPoolBuilder { num_threads: DEFAULT_NUM_THREADS }
    }
}

/// What the registry keeps of one worker: its start-up, shut-down and
/// terminate latches, and a stealing handle onto its queue.
pub struct ThreadInfo {
    /// Set by the worker when it has installed itself and begun serving.
    pub primed: LockLatch,
    /// Set by the worker when it has left its main loop.
    pub stopped: LockLatch,
    /// Set to ask the worker to leave its main loop.
    pub terminate: OnceLatch,
    /// Steals from the worker's queue.
    pub stealer: Stealer<JobRef>,
}

impl ThreadInfo {
    fn new(stealer: Stealer<JobRef>) -> ThreadInfo {
        ThreadInfo {
            primed: LockLatch::new(),
            stopped: LockLatch::new(),
            terminate: OnceLatch::new(),
            stealer,
        }
    }
}

/// The pool container, shared by handle among the workers.
pub struct Registry {
    thread_infos: Vec<ThreadInfo>,
    injected_jobs: Injector<JobRef>,
    sleep: Sleep,
}

/// Relies on std::sync::Arc::clone: a new handle to the same shared
/// registry.
#[verifier::external_body]
pub(crate) fn arc_clone_registry(a: &Arc<Registry>) -> (r: Arc<Registry>)
    ensures
        r == *a,
{
    Arc::clone(a)
}

impl Registry {
    /// How many workers the registry was built with.
    pub closed spec fn spec_num_threads(&self) -> nat {
        self.thread_infos@.len()
    }

    /// The registry's internal agreement: the sleep coordinator serves
    /// exactly the registered workers, there is at least one worker, and
    /// the word of the counter can account for all of them.
    pub closed spec fn wf(&self) -> bool {
        self.thread_infos@.len() == self.sleep.spec_n_workers() && 1 <= self.thread_infos@.len()
            <= THREADS_MAX
    }

    /// Builds the registry and its workers: one FIFO queue per worker,
    /// the stealing handles registered with the registry, and the sleep
    /// coordinator sized to the pool. The returned workers are handed to
    /// the embedder, which gives each an operating-system thread.
    pub fn new(builder: &ThreadPoolBuilder) -> (r: (Arc<Registry>, Vec<WorkerThread>))
        requires
            1 <= builder.num_threads <= THREADS_MAX,
        ensures
            r.0.wf(),
            r.0.spec_num_threads() == builder.num_threads,
            r.1@.len() == builder.num_threads,
            forall|i: int|
                0 <= i < r.1@.len() ==> (#[trigger] r.1@[i]).wf() && r.1@[i].spec_index() == i
                    && r.1@[i].spec_registry() == *r.0,
    {
        let n_threads = builder.num_threads;

        let mut queues: Vec<crossbeam_deque::Worker<JobRef>> = Vec::new();
        let mut infos: Vec<ThreadInfo> = Vec::new();
        let mut i: usize = 0;
        while i < n_threads
            invariant
                queues@.len() == i,
                infos@.len() == i,
                i <= n_threads,
            decreases n_threads - i,
        {
            let queue = worker_new_fifo();
            let stealer = worker_stealer(&queue);
            infos.push(ThreadInfo::new(stealer));
            queues.push(queue);
            i = i + 1;
        }

        let registry = Arc::new(
            Registry {
                thread_infos: infos,
                injected_jobs: injector_new(),
                sleep: Sleep::new(n_threads),
            },
        );

        let mut workers: Vec<WorkerThread> = Vec::new();
        let mut index: usize = 0;
        while queues.len() > 0
            invariant
                workers@.len() == index,
                index + queues@.len() == n_threads,
                registry.wf(),
                registry.spec_num_threads() == n_threads,
                forall|j: int|
                    0 <= j < workers@.len() ==> (#[trigger] workers@[j]).wf()
                        && workers@[j].spec_index() == j && workers@[j].spec_registry()
                        == *registry,
            decreases queues@.len(),
        {
            let queue = queues.remove(0);
            workers.push(WorkerThread::new(queue, arc_clone_registry(&registry), index));
            index = index + 1;
        }

        (registry, workers)
    }

    pub fn num_threads(&self) -> (r: usize)
        ensures
            r == self.spec_num_threads(),
    {
        self.thread_infos.len()
    }

    /// The registry's record of the worker of the given index.
    pub closed spec fn spec_thread_info(&self, index: int) -> ThreadInfo {
        self.thread_infos@[index]
    }

    pub fn thread_info(&self, index: usize) -> (r: &ThreadInfo)
        requires
            index < self.spec_num_threads(),
        ensures
            *r == self.spec_thread_info(index as int),
    {
        &self.thread_infos[index]
    }

    /// The sleep coordinator of the pool.
    pub fn sleep(&self) -> (r: &Sleep)
        ensures
            self.wf() ==> r.spec_n_workers() == self.spec_num_threads(),
    {
        &self.sleep
    }

    /// Routes an externally submitted job through the shared injector
    /// queue, then signals the sleep coordinator so that a sleeping pool
    /// picks it up.
    pub fn inject(&self, injected_job: JobRef) {
        let queue_was_empty = injector_is_empty(&self.injected_jobs);
        injector_push(&self.injected_jobs, injected_job);
        self.sleep.new_injected_jobs(1, queue_was_empty);
    }

    /// Whether the shared injector queue held a job at the instant of the
    /// check.
    pub fn has_injected_job(&self) -> bool {
        !injector_is_empty(&self.injected_jobs)
    }

    /// Takes one job off the shared injector queue: retries on collisions
    /// with concurrent steals, and treats a run of `u64::MAX` collisions
    /// in a row like an empty queue, so that even that run ends.
    pub fn pop_injected_job(&self) -> Option<JobRef> {
        let mut fuel: u64 = u64::MAX;
        while fuel > 0
            decreases fuel,
        {
            fuel = fuel - 1;
            match injector_steal(&self.injected_jobs) {
                StealResult::Success(job) => { return Some(job) },
                StealResult::Empty => { return None },
                StealResult::Retry => {},
            }
        }
        None
    }

    /// A latch owned by the worker of the given index was set: wake that
    /// worker if it is sleeping.
    pub fn notify_worker_latch_is_set(&self, target_worker_index: usize)
        requires
            self.wf(),
            target_worker_index < self.spec_num_threads(),
    {
        self.sleep.notify_worker_latch_is_set(target_worker_index);
    }
}

/// The size of the pool a registry handle belongs to: positive, since a
/// pool is built with at least one worker.
pub fn current_num_threads(registry: &Registry) -> (r: usize)
    requires
        registry.wf(),
    ensures
        r == registry.spec_num_threads(),
        1 <= r <= THREADS_MAX,
{
    registry.num_threads()
}

} // verus!
