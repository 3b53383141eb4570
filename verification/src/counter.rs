//! The packed counter word of the sleep coordinator.
//!
//! A single 64-bit atomic holds three fields: the number of sleeping
//! workers (low 16 bits), the number of inactive workers (next 16 bits,
//! a superset of the sleeping ones), and a wrapping jobs-event counter in
//! the remaining high bits whose parity records whether a worker has
//! announced the intent to sleep.
use vstd::prelude::*;

use std::sync::atomic::AtomicU64;
use std::sync::atomic::Ordering;

verus! {

/// Bits given to each of the two thread counts.
pub const THREADS_BITS: u64 = 16;

/// Shift of the sleeping-thread count inside the word.
pub const SLEEPING_SHIFT: u64 = 0;

/// Shift of the inactive-thread count inside the word: one field of
/// `THREADS_BITS` above the sleeping count.
pub const INACTIVE_SHIFT: u64 = 16;

/// Shift of the jobs-event counter inside the word: two fields of
/// `THREADS_BITS` above the sleeping count.
pub const JEC_SHIFT: u64 = 32;

/// The largest thread count the word can account for.
pub const THREADS_MAX: usize = 0xffff;

pub const ONE_SLEEPING: u64 = 1;

pub const ONE_INACTIVE: u64 = 0x1_0000;

pub const ONE_JEC: u64 = 0x1_0000_0000;

/// The three fields of a word are bounded by their widths.
pub proof fn lemma_field_bounds(w: u64)
    ensures
        spec_sleeping(w) <= 0xffff,
        spec_inactive(w) <= 0xffff,
        spec_jec(w) <= 0xffff_ffff,
{
    assert(w & 0xffff <= 0xffff) by (bit_vector);
    assert((w >> 16) & 0xffff <= 0xffff) by (bit_vector);
    assert(w >> 32 <= 0xffff_ffff) by (bit_vector);
}

/// A decoded snapshot of the counter word.
#[derive(Copy, Clone, Debug)]
pub struct Counters {
    pub word: u64,
}

/// The jobs-event counter: wrapping, compared only for equality; an even
/// value means "sleepy" (a worker announced intent to sleep), an odd one
/// "active" (a job arrived since the last announcement).
#[derive(Copy, Clone, Debug, PartialEq, Eq, Structural)]
pub struct JobsEventCounter(pub usize);

impl JobsEventCounter {
    /// The placeholder value an idle worker starts from, matching no
    /// snapshot it will ever cache.
    pub fn dummy() -> (r: JobsEventCounter)
        ensures
            r.0 == usize::MAX,
    {
        JobsEventCounter(usize::MAX)
    }

    pub fn as_usize(self) -> (r: usize)
        ensures
            r == self.0,
    {
        self.0
    }

    pub open spec fn spec_is_sleepy(self) -> bool {
        self.0 % 2 == 0
    }

    pub fn is_sleepy(self) -> (r: bool)
        ensures
            r == self.spec_is_sleepy(),
    {
        proof {
            let v = self.0;
            assert((v & 1) == 0 <==> v % 2 == 0) by (bit_vector);
        }
        (self.as_usize() & 1) == 0
    }

    pub fn is_active(self) -> (r: bool)
        ensures
            r == !self.spec_is_sleepy(),
    {
        !self.is_sleepy()
    }
}

/// The sleeping-thread count packed into `word`.
pub open spec fn spec_sleeping(word: u64) -> u64 {
    word & 0xffff
}

/// The inactive-thread count packed into `word`.
pub open spec fn spec_inactive(word: u64) -> u64 {
    (word >> 16) & 0xffff
}

/// The jobs-event counter packed into `word`.
pub open spec fn spec_jec(word: u64) -> u64 {
    word >> 32
}

/// Extracts one of the two thread counts from a word.
pub fn select_thread(word: u64, shift: u64) -> (r: usize)
    requires
        shift < 64,
    ensures
        r == ((word >> shift) & 0xffff) as usize,
        r as int == ((word >> shift) & 0xffff) as int,
        r <= THREADS_MAX,
{
    proof {
        assert((word >> shift) & 0xffff <= 0xffff) by (bit_vector);
    }
    ((word >> shift) & 0xffff) as usize
}

/// Extracts the jobs-event counter from a word.
pub fn select_jec(word: u64) -> (r: usize)
    ensures
        r == spec_jec(word) as usize,
{
    proof {
        assert(word >> 32 <= 0xffff_ffff) by (bit_vector);
    }
    (word >> JEC_SHIFT) as usize
}

impl Counters {
    pub fn new(word: u64) -> (r: Counters)
        ensures
            r.word == word,
    {
        Counters { word }
    }

    pub open spec fn spec_sleeping_threads(self) -> u64 {
        spec_sleeping(self.word)
    }

    pub open spec fn spec_inactive_threads(self) -> u64 {
        spec_inactive(self.word)
    }

    pub open spec fn spec_jobs_counter(self) -> JobsEventCounter {
        JobsEventCounter(spec_jec(self.word) as usize)
    }

    /// The counter-word invariant: the sleeping workers are a subset of the
    /// inactive ones, and no more workers than the pool holds are inactive.
    pub open spec fn wf(self, num_threads: usize) -> bool {
        self.spec_sleeping_threads() <= self.spec_inactive_threads()
            && self.spec_inactive_threads() <= num_threads
    }

    /// Bumps the jobs-event counter. The counter occupies the most
    /// significant bits, so the wrapping addition never carries into the
    /// two thread counts.
    pub fn increment_jobs_counter(self) -> (r: Counters)
        ensures
            r == op_apply(CounterOp::BumpJec, self),
            r.spec_sleeping_threads() == self.spec_sleeping_threads(),
            r.spec_inactive_threads() == self.spec_inactive_threads(),
    {
        proof {
            lemma_add_one_jec(self.word);
        }
        Counters { word: self.word.wrapping_add(ONE_JEC) }
    }

    pub fn jobs_counter(self) -> (r: JobsEventCounter)
        ensures
            r == self.spec_jobs_counter(),
    {
        JobsEventCounter(select_jec(self.word))
    }

    pub fn inactive_threads(self) -> (r: usize)
        ensures
            r == self.spec_inactive_threads() as usize,
            r as int == self.spec_inactive_threads() as int,
            r <= THREADS_MAX,
    {
        select_thread(self.word, INACTIVE_SHIFT)
    }

    /// The inactive workers that are not asleep: they may pick freshly
    /// queued work up on their own, without a wake-up.
    pub fn awake_but_idle_threads(self) -> (r: usize)
        requires
            self.spec_sleeping_threads() <= self.spec_inactive_threads(),
        ensures
            r == self.spec_inactive_threads() - self.spec_sleeping_threads(),
    {
        proof {
            lemma_field_bounds(self.word);
        }
        self.inactive_threads() - self.sleeping_threads()
    }

    pub fn sleeping_threads(self) -> (r: usize)
        ensures
            r == self.spec_sleeping_threads() as usize,
            r as int == self.spec_sleeping_threads() as int,
            r <= THREADS_MAX,
    {
        proof {
            let w = self.word;
            assert((w >> 0) & 0xffff == w & 0xffff) by (bit_vector);
        }
        select_thread(self.word, SLEEPING_SHIFT)
    }
}

proof fn lemma_add_one_jec(w: u64)
    ensures
        w + 0x1_0000_0000 <= u64::MAX ==> {
            let v = (w + 0x1_0000_0000) as u64;
            spec_sleeping(v) == spec_sleeping(w) && spec_inactive(v) == spec_inactive(w)
                && spec_jec(v) == spec_jec(w) + 1
        },
        w + 0x1_0000_0000 > u64::MAX ==> {
            let v = (w + 0x1_0000_0000 - 0x1_0000_0000_0000_0000) as u64;
            spec_sleeping(v) == spec_sleeping(w) && spec_inactive(v) == spec_inactive(w)
                && spec_jec(v) == 0 && spec_jec(w) == 0xffff_ffff
        },
{
    assert(w + 0x1_0000_0000 <= u64::MAX ==> {
        let v = (w + 0x1_0000_0000) as u64;
        (v & 0xffff) == (w & 0xffff) && ((v >> 16) & 0xffff) == ((w >> 16) & 0xffff) && (v >> 32)
            == (w >> 32) + 1
    }) by (bit_vector);
    assert(w + 0x1_0000_0000 > u64::MAX ==> {
        let v = (w + 0x1_0000_0000 - 0x1_0000_0000_0000_0000) as u64;
        (v & 0xffff) == (w & 0xffff) && ((v >> 16) & 0xffff) == ((w >> 16) & 0xffff) && (v >> 32)
            == 0 && (w >> 32) == 0xffff_ffff
    }) by (bit_vector);
}

/// Adding one inactive thread leaves the other two fields alone.
proof fn lemma_add_one_inactive(w: u64)
    requires
        spec_inactive(w) < 0xffff,
    ensures
        w + 0x1_0000 <= u64::MAX,
        spec_sleeping((w + 0x1_0000) as u64) == spec_sleeping(w),
        spec_inactive((w + 0x1_0000) as u64) == spec_inactive(w) + 1,
        spec_jec((w + 0x1_0000) as u64) == spec_jec(w),
{
    assert(((w >> 16) & 0xffff) < 0xffff ==> w + 0x1_0000 <= u64::MAX && {
        let v = (w + 0x1_0000) as u64;
        (v & 0xffff) == (w & 0xffff) && ((v >> 16) & 0xffff) == ((w >> 16) & 0xffff) + 1 && (v
            >> 32) == (w >> 32)
    }) by (bit_vector);
}

/// Removing one inactive thread leaves the other two fields alone.
proof fn lemma_sub_one_inactive(w: u64)
    requires
        spec_inactive(w) > 0,
    ensures
        w >= 0x1_0000,
        spec_sleeping((w - 0x1_0000) as u64) == spec_sleeping(w),
        spec_inactive((w - 0x1_0000) as u64) == spec_inactive(w) - 1,
        spec_jec((w - 0x1_0000) as u64) == spec_jec(w),
{
    assert(((w >> 16) & 0xffff) > 0 ==> w >= 0x1_0000 && {
        let v = (w - 0x1_0000) as u64;
        (v & 0xffff) == (w & 0xffff) && ((v >> 16) & 0xffff) == ((w >> 16) & 0xffff) - 1 && (v
            >> 32) == (w >> 32)
    }) by (bit_vector);
}

/// Adding one sleeping thread leaves the other two fields alone.
proof fn lemma_add_one_sleeping(w: u64)
    requires
        spec_sleeping(w) < 0xffff,
    ensures
        w + 1 <= u64::MAX,
        spec_sleeping((w + 1) as u64) == spec_sleeping(w) + 1,
        spec_inactive((w + 1) as u64) == spec_inactive(w),
        spec_jec((w + 1) as u64) == spec_jec(w),
{
    assert((w & 0xffff) < 0xffff ==> w + 1 <= u64::MAX && {
        let v = (w + 1) as u64;
        (v & 0xffff) == (w & 0xffff) + 1 && ((v >> 16) & 0xffff) == ((w >> 16) & 0xffff) && (v
            >> 32) == (w >> 32)
    }) by (bit_vector);
}

/// Removing one sleeping thread leaves the other two fields alone.
proof fn lemma_sub_one_sleeping(w: u64)
    requires
        spec_sleeping(w) > 0,
    ensures
        w >= 1,
        spec_sleeping((w - 1) as u64) == spec_sleeping(w) - 1,
        spec_inactive((w - 1) as u64) == spec_inactive(w),
        spec_jec((w - 1) as u64) == spec_jec(w),
{
    assert((w & 0xffff) > 0 ==> w >= 1 && {
        let v = (w - 1) as u64;
        (v & 0xffff) == (w & 0xffff) - 1 && ((v >> 16) & 0xffff) == ((w >> 16) & 0xffff) && (v
            >> 32) == (w >> 32)
    }) by (bit_vector);
}

/// One step of the sleep-accounting protocol, as it acts on the packed word.
pub enum CounterOp {
    /// A worker enters the "looking for work" mode.
    AddInactive,
    /// A worker leaves the "looking for work" mode.
    SubInactive,
    /// An inactive worker registers as asleep.
    AddSleeping,
    /// A sleeping worker is woken, or wakes itself.
    SubSleeping,
    /// A job posting or a sleep announcement bumps the event counter.
    BumpJec,
}

/// When the protocol may take a step: a worker becomes inactive only while
/// fewer than all workers are, falls asleep only while itself inactive and
/// awake, and leaves a state only while the state is occupied.
pub open spec fn op_enabled(op: CounterOp, c: Counters, num_threads: usize) -> bool {
    match op {
        CounterOp::AddInactive => c.spec_inactive_threads() < num_threads,
        CounterOp::SubInactive => c.spec_sleeping_threads() < c.spec_inactive_threads(),
        CounterOp::AddSleeping => c.spec_sleeping_threads() < c.spec_inactive_threads(),
        CounterOp::SubSleeping => c.spec_sleeping_threads() > 0,
        CounterOp::BumpJec => true,
    }
}

/// The word after a step.
pub open spec fn op_apply(op: CounterOp, c: Counters) -> Counters {
    match op {
        CounterOp::AddInactive => Counters { word: (c.word + ONE_INACTIVE) as u64 },
        CounterOp::SubInactive => Counters { word: (c.word - ONE_INACTIVE) as u64 },
        CounterOp::AddSleeping => Counters { word: (c.word + ONE_SLEEPING) as u64 },
        CounterOp::SubSleeping => Counters { word: (c.word - ONE_SLEEPING) as u64 },
        CounterOp::BumpJec => Counters {
            word: if c.word + ONE_JEC <= u64::MAX {
                (c.word + ONE_JEC) as u64
            } else {
                (c.word + ONE_JEC - 0x1_0000_0000_0000_0000) as u64
            },
        },
    }
}

/// For any snapshot of the counter word that satisfies the invariant
/// `sleeping <= inactive <= num_threads`, every enabled step of the
/// sleep-accounting protocol preserves that invariant; the pool never has
/// more threads than the word can account for.
pub proof fn lemma_counter_word_invariant(op: CounterOp, c: Counters, num_threads: usize)
    requires
        num_threads <= THREADS_MAX,
        c.wf(num_threads),
        op_enabled(op, c, num_threads),
    ensures
        op_apply(op, c).wf(num_threads),
{
    let w = c.word;
    lemma_field_bounds(w);
    match op {
        CounterOp::AddInactive => {
            lemma_add_one_inactive(w);
        },
        CounterOp::SubInactive => {
            lemma_sub_one_inactive(w);
        },
        CounterOp::AddSleeping => {
            lemma_add_one_sleeping(w);
        },
        CounterOp::SubSleeping => {
            lemma_sub_one_sleeping(w);
        },
        CounterOp::BumpJec => {
            lemma_add_one_jec(w);
        },
    }
}

/// The lock-free holder of the packed counter word.
///
/// Other threads race on the shared word, so nothing relates one atomic
/// access to the next; each operation's contract speaks only of what holds
/// of every interleaving, and the callers reason over the decoded
/// `Counters` snapshots these operations hand back.
pub struct AtomicCounters {
    value: AtomicU64,
}

impl AtomicCounters {
    pub fn new() -> AtomicCounters {
        AtomicCounters { value: AtomicU64::new(0) }
    }

    /// The current snapshot of the word.
    pub fn load(&self, ordering: Ordering) -> Counters {
        Counters::new(self.value.load(ordering))
    }

    fn try_exchange(&self, old_value: Counters, new_value: Counters, ordering: Ordering) -> bool {
        self.value.compare_exchange(
            old_value.word,
            new_value.word,
            ordering,
            Ordering::Relaxed,
        ).is_ok()
    }

    /// Registers one more thread in the "looking for work" mode.
    pub fn add_inactive_thread(&self) {
        self.value.fetch_add(ONE_INACTIVE, Ordering::SeqCst);
    }

    /// Bumps the jobs-event counter whenever `increment_when` accepts the
    /// freshly loaded value, rereading and retrying while the exchange is
    /// beaten by concurrent writers; the returned snapshot was the word's
    /// value at some instant, with the bump applied when the predicate
    /// accepted it. The first two disjuncts below are the intended
    /// behaviour; the third exists only because a run of `u64::MAX`
    /// failed exchanges in a row exhausts the retries and hands the
    /// latest snapshot back unchanged, so that even that run ends —
    /// physically out of reach, but the contract owns up to it.
    pub fn increment_jobs_event_counter_if<F: Fn(JobsEventCounter) -> bool>(
        &self,
        increment_when: F,
    ) -> (r: Counters)
        requires
            forall|jec: JobsEventCounter| #[trigger] call_requires(increment_when, (jec,)),
        ensures
            exists|prev: Counters|
                #![trigger call_ensures(increment_when, (prev.spec_jobs_counter(),), false)]
                #![trigger call_ensures(increment_when, (prev.spec_jobs_counter(),), true)]
                {
                    ||| (call_ensures(increment_when, (prev.spec_jobs_counter(),), false)
                        && r == prev)
                    ||| (call_ensures(increment_when, (prev.spec_jobs_counter(),), true) && r
                        == op_apply(CounterOp::BumpJec, prev))
                    ||| (call_ensures(increment_when, (prev.spec_jobs_counter(),), true) && r
                        == prev)
                },
    {
        let mut fuel: u64 = u64::MAX;
        while fuel > 0
            invariant
                forall|jec: JobsEventCounter| #[trigger] call_requires(increment_when, (jec,)),
            decreases fuel,
        {
            fuel = fuel - 1;
            let old_value = self.load(Ordering::SeqCst);
            let accepted = increment_when(old_value.jobs_counter());
            if accepted {
                let new_value = old_value.increment_jobs_counter();
                if self.try_exchange(old_value, new_value, Ordering::SeqCst) {
                    proof {
                        assert(call_ensures(
                            increment_when,
                            (old_value.spec_jobs_counter(),),
                            true,
                        ));
                    }
                    return new_value;
                }
            } else {
                proof {
                    assert(call_ensures(increment_when, (old_value.spec_jobs_counter(),), false));
                }
                return old_value;
            }
        }
        let last = self.load(Ordering::SeqCst);
        let accepted = increment_when(last.jobs_counter());
        proof {
            if accepted {
                assert(call_ensures(increment_when, (last.spec_jobs_counter(),), true));
            } else {
                assert(call_ensures(increment_when, (last.spec_jobs_counter(),), false));
            }
        }
        last
    }

    /// Unregisters one thread from the "looking for work" mode and returns
    /// how many sleepers to wake: up to two whenever the snapshot showed
    /// any, biasing the pool toward throughput.
    pub fn sub_inactive_thread(&self) -> (r: usize)
        ensures
            r <= 2,
    {
        let old_value = Counters::new(self.value.fetch_sub(ONE_INACTIVE, Ordering::SeqCst));
        let sleeping_threads = old_value.sleeping_threads();
        if sleeping_threads < 2 {
            sleeping_threads
        } else {
            2
        }
    }

    /// Unregisters one sleeping thread.
    pub fn sub_sleeping_thread(&self) {
        self.value.fetch_sub(ONE_SLEEPING, Ordering::SeqCst);
    }

    /// Tries to move one thread from inactive to sleeping by exchanging the
    /// word from the snapshot `old_value`; a concurrent change of the word
    /// makes it fail, and the caller rereads and retries.
    pub fn try_add_sleeping_thread(&self, old_value: Counters) -> (r: bool)
        requires
            old_value.spec_inactive_threads() > 0,
            old_value.spec_sleeping_threads() < THREADS_MAX,
    {
        proof {
            lemma_add_one_sleeping(old_value.word);
        }
        let new_value = Counters { word: old_value.word + ONE_SLEEPING };
        self.try_exchange(old_value, new_value, Ordering::SeqCst)
    }
}

} // verus!
