use std::sync::atomic::Ordering;

use mini_rayon::AtomicCounters;
use mini_rayon::Counters;
use mini_rayon::JobsEventCounter;
use mini_rayon::THREADS_MAX;

#[test]
fn packs_and_unpacks_the_three_fields() {
    // sleeping = 3, inactive = 5, jec = 9
    let word: u64 = 3 | (5 << 16) | (9 << 32);
    let c = Counters::new(word);
    assert_eq!(c.sleeping_threads(), 3);
    assert_eq!(c.inactive_threads(), 5);
    assert_eq!(c.awake_but_idle_threads(), 2);
    assert_eq!(c.jobs_counter().as_usize(), 9);
}

#[test]
fn empty_word_decodes_to_zeros() {
    let c = Counters::new(0);
    assert_eq!(c.sleeping_threads(), 0);
    assert_eq!(c.inactive_threads(), 0);
    assert_eq!(c.jobs_counter().as_usize(), 0);
}

#[test]
fn jec_parity_encodes_sleepy_and_active() {
    assert!(JobsEventCounter(0).is_sleepy());
    assert!(!JobsEventCounter(0).is_active());
    assert!(JobsEventCounter(1).is_active());
    assert!(!JobsEventCounter(1).is_sleepy());
    assert!(JobsEventCounter(2).is_sleepy());
}

#[test]
fn dummy_jec_matches_no_real_snapshot() {
    assert_eq!(JobsEventCounter::dummy().as_usize(), usize::MAX);
}

#[test]
fn incrementing_the_jobs_counter_leaves_the_thread_counts_alone() {
    let word: u64 = 7 | (11 << 16) | (42 << 32);
    let bumped = Counters::new(word).increment_jobs_counter();
    assert_eq!(bumped.sleeping_threads(), 7);
    assert_eq!(bumped.inactive_threads(), 11);
    assert_eq!(bumped.jobs_counter().as_usize(), 43);
}

#[test]
fn the_jobs_counter_wraps_without_touching_the_counts() {
    let word: u64 = (u64::MAX << 32) | 3 | (5 << 16);
    let bumped = Counters::new(word).increment_jobs_counter();
    assert_eq!(bumped.sleeping_threads(), 3);
    assert_eq!(bumped.inactive_threads(), 5);
    assert_eq!(bumped.jobs_counter().as_usize(), 0);
}

#[test]
fn select_functions_extract_the_fields() {
    let word: u64 = 0xdead | (0xbeef << 16) | (0x1234_5678 << 32);
    assert_eq!(mini_rayon::select_thread(word, 0), 0xdead);
    assert_eq!(mini_rayon::select_thread(word, 16), 0xbeef);
    assert_eq!(mini_rayon::select_jec(word), 0x1234_5678);
}

#[test]
fn threads_max_is_the_field_capacity() {
    assert_eq!(THREADS_MAX, 0xffff);
}

#[test]
fn atomic_counters_track_inactive_threads() {
    let ac = AtomicCounters::new();
    let c = ac.load(Ordering::SeqCst);
    assert_eq!(c.inactive_threads(), 0);
    ac.add_inactive_thread();
    ac.add_inactive_thread();
    let c = ac.load(Ordering::SeqCst);
    assert_eq!(c.inactive_threads(), 2);
    assert_eq!(c.sleeping_threads(), 0);
    let to_wake = ac.sub_inactive_thread();
    assert_eq!(to_wake, 0);
    let c = ac.load(Ordering::SeqCst);
    assert_eq!(c.inactive_threads(), 1);
}

#[test]
fn sub_inactive_wakes_at_most_two_sleepers() {
    let ac = AtomicCounters::new();
    for _ in 0..5 {
        ac.add_inactive_thread();
        let snapshot = ac.load(Ordering::SeqCst);
        assert!(ac.try_add_sleeping_thread(snapshot));
    }
    let c = ac.load(Ordering::SeqCst);
    assert_eq!(c.sleeping_threads(), 5);
    assert_eq!(c.inactive_threads(), 5);
    let to_wake = ac.sub_inactive_thread();
    assert_eq!(to_wake, 2);
}

#[test]
fn try_add_sleeping_fails_on_a_stale_snapshot() {
    let ac = AtomicCounters::new();
    ac.add_inactive_thread();
    let stale = ac.load(Ordering::SeqCst);
    ac.add_inactive_thread();
    assert!(!ac.try_add_sleeping_thread(stale));
    let c = ac.load(Ordering::SeqCst);
    assert_eq!(c.sleeping_threads(), 0);
}

#[test]
fn jec_bump_applies_only_when_the_predicate_accepts() {
    let ac = AtomicCounters::new();
    // Fresh word: jec = 0, sleepy. An "if active" bump leaves it alone.
    let c = ac.increment_jobs_event_counter_if(|jec: JobsEventCounter| jec.is_active());
    assert_eq!(c.jobs_counter().as_usize(), 0);
    // An "if sleepy" bump makes it odd: active.
    let c = ac.increment_jobs_event_counter_if(|jec: JobsEventCounter| jec.is_sleepy());
    assert_eq!(c.jobs_counter().as_usize(), 1);
    assert!(c.jobs_counter().is_active());
    // Now "if sleepy" declines.
    let c = ac.increment_jobs_event_counter_if(|jec: JobsEventCounter| jec.is_sleepy());
    assert_eq!(c.jobs_counter().as_usize(), 1);
    // And "if active" bumps back to sleepy.
    let c = ac.increment_jobs_event_counter_if(|jec: JobsEventCounter| jec.is_active());
    assert_eq!(c.jobs_counter().as_usize(), 2);
    assert!(c.jobs_counter().is_sleepy());
}

#[test]
fn sleeping_thread_can_unregister() {
    let ac = AtomicCounters::new();
    ac.add_inactive_thread();
    let snapshot = ac.load(Ordering::SeqCst);
    assert!(ac.try_add_sleeping_thread(snapshot));
    assert_eq!(ac.load(Ordering::SeqCst).sleeping_threads(), 1);
    ac.sub_sleeping_thread();
    assert_eq!(ac.load(Ordering::SeqCst).sleeping_threads(), 0);
}
