//! A data-parallel execution core: the bookkeeping of a work-stealing thread
//! pool (counter word, latches, sleep coordinator, registry, worker queues)
//! together with the producer/consumer plumbing that drives parallel
//! iterators by recursive splitting.
mod counter;
mod deque;
mod for_each;
mod iter;
mod job;
mod join;
mod latch;
mod noop;
mod parking;
mod plumbing;
mod registry;
mod sleep;
mod vec;
mod worker;

pub use counter::AtomicCounters;
pub use counter::CounterOp;
pub use counter::Counters;
pub use counter::JobsEventCounter;
pub use counter::THREADS_MAX;
pub use counter::lemma_counter_word_invariant;
pub use counter::op_apply;
pub use counter::op_enabled;
pub use counter::select_jec;
pub use counter::select_thread;
pub use counter::spec_inactive;
pub use counter::spec_jec;
pub use counter::spec_sleeping;
pub use deque::StealResult;
pub use for_each::ForEachConsumer;
pub use for_each::all_called;
pub use for_each::for_each;
pub use iter::IntoParallelIteratorator;
pub use iter::ParallelIterator;
pub use job::JobRef;
pub use job::JobResult;
pub use job::StackJob;
pub use join::FnContext;
pub use join::JoinAction;
pub use join::join_context;
pub use join::next_join_action;
pub use latch::AsCoreLatch;
pub use latch::CoreLatch;
pub use latch::Latch;
pub use latch::LatchRef;
pub use latch::LockLatch;
pub use latch::OnceLatch;
pub use latch::SET;
pub use latch::SLEEPING;
pub use latch::SLEEPY;
pub use latch::SpinLatch;
pub use latch::UNSET;
pub use latch::latch_state_wf;
pub use latch::latch_step;
pub use latch::lemma_latch_step_wf;
pub use latch::lemma_set_is_terminal;
pub use latch::step_fall_asleep;
pub use latch::step_get_sleepy;
pub use latch::step_set;
pub use latch::step_wake_up;
pub use noop::NoopReducer;
pub use plumbing::Consumer;
pub use plumbing::Folder;
pub use plumbing::LengthSplitter;
pub use plumbing::Producer;
pub use plumbing::ProducerCallback;
pub use plumbing::Reducer;
pub use plumbing::Splitter;
pub use plumbing::bridge;
pub use plumbing::bridge_producer_consumer;
pub use plumbing::lemma_leaf_refuses_split;
pub use plumbing::spec_max;
pub use plumbing::spec_split_allowed;
pub use plumbing::spec_split_step;
pub use registry::DEFAULT_NUM_THREADS;
pub use registry::Registry;
pub use registry::ThreadInfo;
pub use registry::ThreadPoolBuilder;
pub use registry::current_num_threads;
pub use sleep::IdleState;
pub use sleep::ROUNDS_UNTIL_SLEEPING;
pub use sleep::ROUNDS_UNTIL_SLEEPY;
pub use sleep::Sleep;
pub use sleep::spec_new_jobs_outcome;
pub use sleep::spec_wake_quota;
pub use sleep::wake_quota;
pub use vec::DrainProducer;
pub use vec::IntoIter;
pub use vec::SliceDrain;
pub use worker::WorkerThread;
