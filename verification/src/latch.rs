//! Single-shot synchronization primitives.
//!
//! A latch starts unset and is set exactly once; `probe` answers true
//! forever after. `CoreLatch` additionally tracks the owner's progress
//! toward sleeping on it, so that a setter knows whether a wake-up is owed.
use vstd::prelude::*;

use std::sync::Arc;
use std::sync::Condvar;
use std::sync::Mutex;
use std::sync::atomic::AtomicUsize;
use std::sync::atomic::Ordering;

use crate::parking::condvar_new;
use crate::parking::condvar_notify_all;
use crate::parking::condvar_wait;
use crate::parking::guard_get;
use crate::parking::guard_set;
use crate::parking::mutex_lock;
use crate::parking::mutex_new;
use crate::registry::Registry;
use crate::registry::arc_clone_registry;
use crate::worker::WorkerThread;

verus! {

/// Latch is not set; the owning thread is awake.
pub const UNSET: usize = 0;

/// Latch is not set; the owning thread announced it is going to sleep on
/// this latch but has not yet fallen asleep.
pub const SLEEPY: usize = 1;

/// Latch is not set; the owning thread is asleep on this latch and must be
/// woken.
pub const SLEEPING: usize = 2;

/// Latch is set; terminal.
pub const SET: usize = 3;

/// A state the latch word can hold.
pub open spec fn latch_state_wf(s: usize) -> bool {
    s == UNSET || s == SLEEPY || s == SLEEPING || s == SET
}

/// The owner announces sleepiness: the exchange from `UNSET` moves to
/// `SLEEPY` and any other state stands.
pub open spec fn step_get_sleepy(s: usize) -> usize {
    if s == UNSET {
        SLEEPY
    } else {
        s
    }
}

/// The owner commits to sleeping: the exchange from `SLEEPY` moves to
/// `SLEEPING` and any other state stands.
pub open spec fn step_fall_asleep(s: usize) -> usize {
    if s == SLEEPY {
        SLEEPING
    } else {
        s
    }
}

/// The owner returns to awake: only `SLEEPING` moves back to `UNSET`; a
/// set latch is left alone.
pub open spec fn step_wake_up(s: usize) -> usize {
    if s == SLEEPING {
        UNSET
    } else {
        s
    }
}

/// A setter fires the latch, from any state.
pub open spec fn step_set(s: usize) -> usize {
    SET
}

/// Whether one transition of the latch protocol leads from `s` to `t`.
pub open spec fn latch_step(s: usize, t: usize) -> bool {
    t == step_get_sleepy(s) || t == step_fall_asleep(s) || t == step_wake_up(s) || t == step_set(s)
}

/// A latch never leaves `SET` once entered: every transition of the
/// protocol maps `SET` to `SET`, so by induction no chain of transitions
/// leaves it.
pub proof fn lemma_set_is_terminal(s: usize, t: usize)
    requires
        s == SET,
        latch_step(s, t),
    ensures
        t == SET,
{
}

/// Every transition keeps the word inside the four states.
pub proof fn lemma_latch_step_wf(s: usize, t: usize)
    requires
        latch_state_wf(s),
        latch_step(s, t),
    ensures
        latch_state_wf(t),
{
}

/// A latch that can be set from another thread while its owner still holds
/// a reference to it.
pub trait Latch {
    /// What a setter must know of the latch before firing it; a latch
    /// that notifies a pool on firing needs its target index in range.
    spec fn can_set(&self) -> bool;

    /// Fires the latch. After this call the owner may tear the latch down,
    /// so an implementation must not touch `self` after the step that
    /// makes `probe` answer true.
    fn set(&self)
        requires
            self.can_set(),
    ;
}

/// Exposes the inner atomic state machine of a composite latch.
pub trait AsCoreLatch {
    fn as_core_latch(&self) -> &CoreLatch;
}

/// The atomic four-state latch word.
///
/// Other threads race on the word, so no contract relates one access to
/// the next; the pure `step_*` functions above state what each exchange
/// does to whichever state it hit, and `lemma_set_is_terminal` is the
/// terminality argument.
pub struct CoreLatch {
    state: AtomicUsize,
}

impl CoreLatch {
    pub fn new() -> Self {
        Self { state: AtomicUsize::new(0) }
    }

    /// The owner announces it will sleep: exchanges `UNSET` for `SLEEPY`
    /// and reports whether the exchange won.
    pub fn get_sleepy(&self) -> bool {
        self.state.compare_exchange(UNSET, SLEEPY, Ordering::SeqCst, Ordering::Relaxed).is_ok()
    }

    /// The owner commits to sleeping: exchanges `SLEEPY` for `SLEEPING`
    /// and reports whether the exchange won; it loses exactly when a
    /// setter fired the latch in between.
    pub fn fall_asleep(&self) -> bool {
        self.state.compare_exchange(SLEEPY, SLEEPING, Ordering::SeqCst, Ordering::Relaxed).is_ok()
    }

    /// The owner wakes: moves `SLEEPING` back to `UNSET` unless the latch
    /// was fired meanwhile, in which case the terminal state stands.
    pub fn wake_up(&self) {
        if !self.probe() {
            let _ = self.state.compare_exchange(
                SLEEPING,
                UNSET,
                Ordering::SeqCst,
                Ordering::Relaxed,
            );
        }
    }

    /// Fires the latch from any state and reports whether the prior state
    /// was `SLEEPING`, telling the caller that the owner must be woken
    /// through its condvar.
    pub fn set(&self) -> bool {
        let old_state = self.state.swap(SET, Ordering::AcqRel);
        old_state == SLEEPING
    }

    /// Whether the latch has been fired.
    pub fn probe(&self) -> bool {
        self.state.load(Ordering::Acquire) == SET
    }
}

/// A blocking latch for threads outside the pool: a flag under a mutex
/// plus a condvar, reusable after `wait_and_reset`.
pub struct LockLatch {
    m: Mutex<bool>,
    v: Condvar,
}

impl LockLatch {
    pub fn new() -> LockLatch {
        LockLatch { m: mutex_new(false), v: condvar_new() }
    }

    /// Blocks until the latch is set, then resets it for the next use.
    /// Wakeups may be spurious, so the flag is rechecked under the mutex;
    /// a run of `u64::MAX` spurious wakeups in a row exhausts the loop's
    /// bound and gives the wait up, so that even that run ends.
    pub fn wait_and_reset(&self) {
        let mut guard = mutex_lock(&self.m);
        let mut fuel: u64 = u64::MAX;
        while fuel > 0 && !guard_get(&guard)
            decreases fuel,
        {
            fuel = fuel - 1;
            guard = condvar_wait(&self.v, guard);
        }
        guard_set(&mut guard, false);
    }
}

impl Latch for LockLatch {
    open spec fn can_set(&self) -> bool {
        true
    }

    fn set(&self) {
        let mut guard = mutex_lock(&self.m);
        guard_set(&mut guard, true);
        condvar_notify_all(&self.v);
    }
}

/// A latch owned by one worker, set by whichever worker finishes the
/// associated job: the core word, plus what the setter needs to wake the
/// owner if it fell asleep.
pub struct SpinLatch<'r> {
    core_latch: CoreLatch,
    registry: &'r Arc<Registry>,
    target_worker_index: usize,
    cross: bool,
}

impl<'r> SpinLatch<'r> {
    /// What a setter relies on: the owner's index names a worker of the
    /// registry, so the wake-up notification lands.
    pub closed spec fn wf(&self) -> bool {
        self.registry.wf() && self.target_worker_index < self.registry.spec_num_threads()
    }

    /// A latch owned by `thread`, to be set by the worker that finishes
    /// the job the latch travels with.
    pub fn new(thread: &'r WorkerThread) -> (r: SpinLatch<'r>)
        requires
            thread.wf(),
        ensures
            r.wf(),
    {
        SpinLatch {
            core_latch: CoreLatch::new(),
            registry: thread.registry(),
            target_worker_index: thread.index(),
            cross: false,
        }
    }

    /// Whether the latch has been fired.
    pub fn probe(&self) -> bool {
        self.core_latch.probe()
    }
}

impl<'r> AsCoreLatch for SpinLatch<'r> {
    fn as_core_latch(&self) -> &CoreLatch {
        &self.core_latch
    }
}

impl<'r> Latch for SpinLatch<'r> {
    closed spec fn can_set(&self) -> bool {
        self.wf()
    }

    fn set(&self) {
        let cross_registry;
        let registry: &Registry = if self.cross {
            // A setter outside the owner's pool keeps the registry alive
            // across the notification with a handle of its own.
            cross_registry = arc_clone_registry(self.registry);
            &cross_registry
        } else {
            self.registry
        };
        let target_worker_index = self.target_worker_index;
        // Read every field before the swap: once the word is set, the
        // owner may proceed and tear the latch down.
        if self.core_latch.set() {
            // The owner was sleeping on this latch and must be woken.
            registry.notify_worker_latch_is_set(target_worker_index);
        }
    }
}

/// A latch made of a core word alone, used for the terminate signal: set
/// at most once, from any thread, with no further bookkeeping.
pub struct OnceLatch {
    core_latch: CoreLatch,
}

impl OnceLatch {
    pub fn new() -> OnceLatch {
        Self { core_latch: CoreLatch::new() }
    }
}

impl AsCoreLatch for OnceLatch {
    fn as_core_latch(&self) -> &CoreLatch {
        &self.core_latch
    }
}

/// A borrowed latch: lets a caller hand a latch it owns to a job while
/// keeping the original.
pub struct LatchRef<'a, L> {
    inner: &'a L,
}

impl<'a, L> LatchRef<'a, L> {
    /// The borrowed latch the reference stands for.
    pub closed spec fn spec_inner(self) -> &'a L {
        self.inner
    }

    pub fn new(inner: &'a L) -> (r: LatchRef<'a, L>)
        ensures
            r.spec_inner() == inner,
    {
        LatchRef { inner }
    }
}

impl<L: Latch> Latch for LatchRef<'_, L> {
    closed spec fn can_set(&self) -> bool {
        self.inner.can_set()
    }

    fn set(&self) {
        self.inner.set();
    }
}

} // verus!
