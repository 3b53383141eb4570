//! The sleep/wake coordinator: the cooperative backoff protocol that lets
//! idle workers progress from spinning through yielding to blocking on a
//! condvar, without losing jobs that race with the sleep transition.
use vstd::prelude::*;

use std::sync::Condvar;
use std::sync::Mutex;
use std::sync::atomic::Ordering;

use crossbeam_utils::CachePadded;

use crate::counter::AtomicCounters;
use crate::counter::CounterOp;
use crate::counter::Counters;
use crate::counter::JobsEventCounter;
use crate::counter::THREADS_MAX;
use crate::counter::op_apply;
use crate::latch::CoreLatch;
use crate::parking::condvar_new;
use crate::parking::condvar_notify_one;
use crate::parking::condvar_wait;
use crate::parking::fence_seqcst;
use crate::parking::guard_get;
use crate::parking::guard_set;
use crate::parking::mutex_lock;
use crate::parking::mutex_new;

verus! {

#[verifier::external_type_specification]
#[verifier::external_body]
#[verifier::reject_recursive_types(T)]
pub struct ExCachePadded<T>(CachePadded<T>);

/// Relies on crossbeam_utils::CachePadded::new: wraps the value, adding
/// only alignment padding against false sharing.
#[verifier::external_body]
fn cache_padded_new<T>(t: T) -> CachePadded<T> {
    CachePadded::new(t)
}

/// Relies on crossbeam_utils::CachePadded's Deref: borrows the wrapped
/// value.
#[verifier::external_body]
fn cache_padded_get<T>(c: &CachePadded<T>) -> &T {
    c
}

/// Idle rounds a worker spins through before it announces sleepiness.
pub const ROUNDS_UNTIL_SLEEPY: u32 = 32;

/// The last yielding round: the worker announces at `ROUNDS_UNTIL_SLEEPY`,
/// yields once more, and attempts to sleep from the round after this one.
pub const ROUNDS_UNTIL_SLEEPING: u32 = 32 + 1;

/// The blocking state of one worker: a flag under a mutex, paired with
/// the condvar its sleeping owner waits on.
struct WorkerSleepState {
    is_sleep: Mutex<bool>,
    condvar: Condvar,
}

impl WorkerSleepState {
    fn new() -> WorkerSleepState {
        WorkerSleepState { is_sleep: mutex_new(false), condvar: condvar_new() }
    }
}

/// What one caller of the idle loop carries between its rounds.
pub struct IdleState {
    /// The index of the worker that is idling.
    pub worker_index: usize,
    /// How many rounds of looking for work have come up empty.
    pub rounds: u32,
    /// The jobs-event counter value cached when sleepiness was announced.
    pub jobs_counter: JobsEventCounter,
}

impl IdleState {
    /// Resets the backoff entirely: the worker found work or slept.
    pub fn wake_fully(&mut self)
        ensures
            final(self).worker_index == old(self).worker_index,
            final(self).rounds == 0,
            final(self).jobs_counter.0 == usize::MAX,
    {
        self.rounds = 0;
        self.jobs_counter = JobsEventCounter::dummy();
    }

    /// Rewinds the backoff to just before the sleepy announcement, so the
    /// next empty round announces again before any sleep attempt.
    pub fn wake_partly(&mut self)
        ensures
            final(self).worker_index == old(self).worker_index,
            final(self).rounds == ROUNDS_UNTIL_SLEEPY,
            final(self).jobs_counter.0 == usize::MAX,
    {
        self.rounds = ROUNDS_UNTIL_SLEEPY;
        self.jobs_counter = JobsEventCounter::dummy();
    }
}

/// How many sleepers a posting of `num_jobs` fresh jobs should wake,
/// given the snapshot `c`: none when none sleep; up to one per job when
/// the queue was empty; otherwise only the shortfall that the
/// awake-but-idle workers, who may pick queued work up on their own,
/// cannot cover.
pub open spec fn spec_wake_quota(c: Counters, num_jobs: u32, queue_was_empty: bool) -> int {
    let sleeping = c.spec_sleeping_threads() as int;
    let inactive = c.spec_inactive_threads() as int;
    let awake_but_idle = if sleeping <= inactive {
        inactive - sleeping
    } else {
        0
    };
    if sleeping == 0 {
        0
    } else if queue_was_empty {
        if num_jobs <= sleeping {
            num_jobs as int
        } else {
            sleeping
        }
    } else if awake_but_idle < num_jobs {
        if num_jobs - awake_but_idle <= sleeping {
            num_jobs - awake_but_idle
        } else {
            sleeping
        }
    } else {
        0
    }
}

/// The wake quota of a decoded snapshot, exactly as `spec_wake_quota`
/// states it.
pub fn wake_quota(c: Counters, num_jobs: u32, queue_was_empty: bool) -> (r: u32)
    ensures
        r as int == spec_wake_quota(c, num_jobs, queue_was_empty),
{
    let sleeping = c.sleeping_threads();
    let inactive = c.inactive_threads();
    let num_awake_but_idle: u32 = if sleeping <= inactive {
        (inactive - sleeping) as u32
    } else {
        // An impossible snapshot of a healthy pool: treat every inactive
        // worker as asleep and wake generously.
        0
    };
    let num_sleepers: u32 = sleeping as u32;

    if num_sleepers == 0 {
        // Nobody to wake.
        0
    } else if queue_was_empty {
        if num_jobs < num_sleepers {
            num_jobs
        } else {
            num_sleepers
        }
    } else if num_awake_but_idle < num_jobs {
        let shortfall = num_jobs - num_awake_but_idle;
        if shortfall < num_sleepers {
            shortfall
        } else {
            num_sleepers
        }
    } else {
        0
    }
}

/// The observable outcome of posting jobs: some snapshot `prev` of the
/// counter word was read; the jobs-event counter was bumped when it was
/// sleepy (left standing when active, or after an exhausted run of
/// failed exchanges); and the wake quota applied is exactly what the
/// resulting snapshot `c` owes the work.
pub open spec fn spec_new_jobs_outcome(
    prev: Counters,
    c: Counters,
    num_jobs: u32,
    queue_was_empty: bool,
    quota: u32,
) -> bool {
    &&& if prev.spec_jobs_counter().spec_is_sleepy() {
        c == op_apply(CounterOp::BumpJec, prev) || c == prev
    } else {
        c == prev
    }
    &&& quota as int == spec_wake_quota(c, num_jobs, queue_was_empty)
}

/// The coordinator: one blocking state per worker, plus the packed
/// counter word.
pub struct Sleep {
    worker_sleep_states: Vec<CachePadded<WorkerSleepState>>,
    counters: AtomicCounters,
}

impl Sleep {
    /// How many workers the coordinator serves.
    pub closed spec fn spec_n_workers(&self) -> nat {
        self.worker_sleep_states@.len()
    }

    pub fn new(n_threads: usize) -> (r: Sleep)
        requires
            n_threads <= THREADS_MAX,
        ensures
            r.spec_n_workers() == n_threads,
    {
        let mut states: Vec<CachePadded<WorkerSleepState>> = Vec::new();
        let mut i: usize = 0;
        while i < n_threads
            invariant
                states@.len() == i,
                i <= n_threads,
            decreases n_threads - i,
        {
            states.push(cache_padded_new(WorkerSleepState::new()));
            i = i + 1;
        }
        Sleep { worker_sleep_states: states, counters: AtomicCounters::new() }
    }

    /// A worker enters the "looking for work" mode: it is counted
    /// inactive and starts a fresh backoff.
    pub fn start_looking(&self, worker_index: usize) -> (r: IdleState)
        ensures
            r.worker_index == worker_index,
            r.rounds == 0,
            r.jobs_counter.0 == usize::MAX,
    {
        self.counters.add_inactive_thread();
        IdleState { worker_index, rounds: 0, jobs_counter: JobsEventCounter::dummy() }
    }

    /// A worker found work: it leaves the "looking for work" mode, and if
    /// the counter snapshot showed sleepers, up to two of them are woken
    /// toward the fresh supply of work.
    pub fn work_found(&self) {
        let threads_to_wake = self.counters.sub_inactive_thread();
        self.wake_any_threads(threads_to_wake as u32);
    }

    /// One empty round of the idle loop. The first rounds only ask the
    /// caller to yield; the round at `ROUNDS_UNTIL_SLEEPY` announces
    /// sleepiness and caches the resulting jobs-event counter; one more
    /// yielding round follows at `ROUNDS_UNTIL_SLEEPING`, and from the
    /// round after it the worker attempts to sleep. Returns whether the
    /// caller should yield its time slice before the next round, which
    /// the library leaves to the embedder of the pool.
    pub fn no_work_found<F: FnOnce() -> bool>(
        &self,
        idle_state: &mut IdleState,
        latch: &CoreLatch,
        has_injected_jobs: F,
    ) -> (r: bool)
        requires
            old(idle_state).worker_index < self.spec_n_workers(),
            call_requires(has_injected_jobs, ()),
        ensures
            final(idle_state).worker_index == old(idle_state).worker_index,
            old(idle_state).rounds <= ROUNDS_UNTIL_SLEEPING ==> r == true
                && final(idle_state).rounds == old(idle_state).rounds + 1,
            old(idle_state).rounds < ROUNDS_UNTIL_SLEEPY || old(idle_state).rounds
                == ROUNDS_UNTIL_SLEEPING ==> final(idle_state).jobs_counter
                == old(idle_state).jobs_counter,
            old(idle_state).rounds > ROUNDS_UNTIL_SLEEPING ==> r == false
                && (final(idle_state).rounds == old(idle_state).rounds
                || final(idle_state).rounds == 0
                || final(idle_state).rounds == ROUNDS_UNTIL_SLEEPY)
                && (final(idle_state).jobs_counter == old(idle_state).jobs_counter
                || final(idle_state).jobs_counter.0 == usize::MAX),
    {
        if idle_state.rounds < ROUNDS_UNTIL_SLEEPY {
            idle_state.rounds = idle_state.rounds + 1;
            true
        } else if idle_state.rounds == ROUNDS_UNTIL_SLEEPY {
            idle_state.jobs_counter = self.announce_sleepy();
            idle_state.rounds = idle_state.rounds + 1;
            true
        } else if idle_state.rounds <= ROUNDS_UNTIL_SLEEPING {
            idle_state.rounds = idle_state.rounds + 1;
            true
        } else {
            self.sleep(idle_state, latch, has_injected_jobs);
            false
        }
    }

    /// Announces the intent to sleep: bumps the jobs-event counter if it
    /// is active, making it even, and hands the resulting value back for
    /// the worker to cache.
    fn announce_sleepy(&self) -> JobsEventCounter {
        let when_active = |jec: JobsEventCounter| -> (b: bool)
            ensures
                b == !jec.spec_is_sleepy(),
            {
                jec.is_active()
            };
        self.counters.increment_jobs_event_counter_if(when_active).jobs_counter()
    }

    /// The sleep transition itself.
    ///
    /// The latch is moved through sleepy to sleeping; under the worker's
    /// own mutex the counter word is reread, and a jobs-event counter that
    /// moved since the announcement aborts the attempt, since a job was
    /// posted meanwhile. Once the word records the sleeper, one last check
    /// for injected jobs (after a full fence) closes the lost-wakeup
    /// window; only then does the worker block on its condvar until a
    /// waker clears the flag.
    fn sleep<F: FnOnce() -> bool>(
        &self,
        idle_state: &mut IdleState,
        latch: &CoreLatch,
        has_injected_jobs: F,
    )
        requires
            old(idle_state).worker_index < self.spec_n_workers(),
            call_requires(has_injected_jobs, ()),
        ensures
            final(idle_state).worker_index == old(idle_state).worker_index,
            final(idle_state).rounds == old(idle_state).rounds || final(idle_state).rounds == 0
                || final(idle_state).rounds == ROUNDS_UNTIL_SLEEPY,
            final(idle_state).jobs_counter == old(idle_state).jobs_counter
                || final(idle_state).jobs_counter.0 == usize::MAX,
    {
        let worker_index = idle_state.worker_index;

        if !latch.get_sleepy() {
            return ;
        }

        let sleep_state = cache_padded_get(&self.worker_sleep_states[worker_index]);
        let mut is_sleep = mutex_lock(&sleep_state.is_sleep);

        if !latch.fall_asleep() {
            // Our latch was signalled: wake back up fully, there is work.
            idle_state.wake_fully();
            return ;
        }

        let mut registered = false;
        let mut fuel: u64 = u64::MAX;
        while !registered && fuel > 0
            invariant
                idle_state.worker_index == old(idle_state).worker_index,
                idle_state.rounds == old(idle_state).rounds || idle_state.rounds
                    == ROUNDS_UNTIL_SLEEPY,
                idle_state.jobs_counter == old(idle_state).jobs_counter,
            decreases fuel,
        {
            fuel = fuel - 1;
            let counters = self.counters.load(Ordering::SeqCst);

            if counters.jobs_counter() != idle_state.jobs_counter {
                // The jobs-event counter moved since the announcement: a
                // job was posted that this worker has not seen. Return to
                // just before the sleepy state, so the next empty round
                // announces again before sleeping.
                idle_state.wake_partly();
                latch.wake_up();
                return ;
            }

            // In a healthy pool the snapshot always passes this test: the
            // caller itself is inactive and not yet sleeping. The protocol
            // fact lives across threads where no contract carries it, so
            // an impossible snapshot is reread rather than relied on.
            if counters.inactive_threads() > 0 && counters.sleeping_threads() < THREADS_MAX {
                if self.counters.try_add_sleeping_thread(counters) {
                    registered = true;
                }
            }
        }
        if !registered {
            // The exchange lost its race for an entire run of u64::MAX
            // rereads: give the attempt up as if a job had been posted.
            idle_state.wake_partly();
            latch.wake_up();
            return ;
        }

        // Successfully registered as asleep. One last check for injected
        // jobs, fenced so that an injector's push is ordered before it:
        // an external job may have rolled the jobs-event counter over so
        // that the equality check above missed it, and every other worker
        // may already be asleep.
        fence_seqcst();
        if has_injected_jobs() {
            // Wake ourselves up: ordinarily the waker unregisters us.
            self.counters.sub_sleeping_thread();
        } else {
            // Flag ourselves asleep and wait to be notified. The mutex was
            // taken before the counter word recorded us, so a waker that
            // saw the word waits for the condvar wait to release the lock
            // and then sees the flag as true. Wakeups may be spurious, so
            // the flag is rechecked; a run of u64::MAX spurious wakeups in
            // a row exhausts the loop's bound and gives the wait up.
            guard_set(&mut is_sleep, true);
            let mut wait_fuel: u64 = u64::MAX;
            while wait_fuel > 0 && guard_get(&is_sleep)
                decreases wait_fuel,
            {
                wait_fuel = wait_fuel - 1;
                is_sleep = condvar_wait(&sleep_state.condvar, is_sleep);
            }
        }

        idle_state.wake_fully();
        latch.wake_up();
    }

    /// Jobs were pushed onto a worker's own queue: signal any pending
    /// sleep attempts and wake sleepers toward the new work. Returns the
    /// wake quota it applied.
    pub fn new_internal_jobs(&self, num_jobs: u32, queue_was_empty: bool) -> (r: u32)
        ensures
            exists|prev: Counters, c: Counters| #[trigger] spec_new_jobs_outcome(
                prev,
                c,
                num_jobs,
                queue_was_empty,
                r,
            ),
    {
        self.new_jobs(num_jobs, queue_was_empty)
    }

    /// Jobs were pushed onto the shared injector queue: as for internal
    /// jobs, but fenced first, so the push is globally ordered before any
    /// reader observes the bumped jobs-event counter. Returns the wake
    /// quota it applied.
    pub fn new_injected_jobs(&self, num_jobs: u32, queue_was_empty: bool) -> (r: u32)
        ensures
            exists|prev: Counters, c: Counters| #[trigger] spec_new_jobs_outcome(
                prev,
                c,
                num_jobs,
                queue_was_empty,
                r,
            ),
    {
        fence_seqcst();
        self.new_jobs(num_jobs, queue_was_empty)
    }

    /// Bumps the jobs-event counter if it is sleepy, invalidating pending
    /// sleep attempts, then wakes the quota of sleepers the snapshot owes
    /// the fresh work, and returns that quota.
    fn new_jobs(&self, num_jobs: u32, queue_was_empty: bool) -> (r: u32)
        ensures
            exists|prev: Counters, c: Counters| #[trigger] spec_new_jobs_outcome(
                prev,
                c,
                num_jobs,
                queue_was_empty,
                r,
            ),
    {
        let when_sleepy = |jec: JobsEventCounter| -> (b: bool)
            ensures
                b == jec.spec_is_sleepy(),
            {
                jec.is_sleepy()
            };
        let counters = self.counters.increment_jobs_event_counter_if(when_sleepy);
        let num_to_wake = wake_quota(counters, num_jobs, queue_was_empty);
        proof {
            let prev = choose|prev: Counters|
                #![trigger call_ensures(when_sleepy, (prev.spec_jobs_counter(),), false)]
                #![trigger call_ensures(when_sleepy, (prev.spec_jobs_counter(),), true)]
                {
                    ||| (call_ensures(when_sleepy, (prev.spec_jobs_counter(),), false) && counters
                        == prev)
                    ||| (call_ensures(when_sleepy, (prev.spec_jobs_counter(),), true) && counters
                        == op_apply(CounterOp::BumpJec, prev))
                    ||| (call_ensures(when_sleepy, (prev.spec_jobs_counter(),), true) && counters
                        == prev)
                };
            assert(spec_new_jobs_outcome(prev, counters, num_jobs, queue_was_empty, num_to_wake));
        }
        self.wake_any_threads(num_to_wake);
        num_to_wake
    }

    /// Wakes up to `num_to_wake` sleeping workers, scanning them in index
    /// order.
    fn wake_any_threads(&self, num_to_wake: u32) {
        if num_to_wake > 0 {
            let mut remaining = num_to_wake;
            let mut i: usize = 0;
            let n = self.worker_sleep_states.len();
            while i < n
                invariant
                    n == self.spec_n_workers(),
                    remaining >= 1,
                decreases n - i,
            {
                if self.wake_specific_thread(i) {
                    remaining = remaining - 1;
                    if remaining == 0 {
                        return ;
                    }
                }
                i = i + 1;
            }
        }
    }

    /// Wakes the worker of the given index if it is flagged asleep:
    /// clears the flag under its mutex, notifies its condvar, and
    /// unregisters it from the sleeping count. Reports whether a sleeper
    /// was woken.
    pub fn wake_specific_thread(&self, index: usize) -> (r: bool)
        requires
            index < self.spec_n_workers(),
    {
        let sleep_state = cache_padded_get(&self.worker_sleep_states[index]);
        let mut is_sleep = mutex_lock(&sleep_state.is_sleep);
        if guard_get(&is_sleep) {
            guard_set(&mut is_sleep, false);
            condvar_notify_one(&sleep_state.condvar);
            self.counters.sub_sleeping_thread();
            true
        } else {
            false
        }
    }

    /// A latch owned by the worker of the given index was set while the
    /// worker may be sleeping on it: wake that worker.
    pub fn notify_worker_latch_is_set(&self, target_worker_index: usize)
        requires
            target_worker_index < self.spec_n_workers(),
    {
        self.wake_specific_thread(target_worker_index);
    }
}

} // verus!
