use mini_rayon::CoreLatch;
use mini_rayon::JobRef;
use mini_rayon::Registry;
use mini_rayon::ThreadPoolBuilder;
use mini_rayon::current_num_threads;

#[test]
fn the_default_builder_asks_for_ten_threads() {
    let builder = ThreadPoolBuilder::default();
    assert_eq!(builder.num_threads, 10);
}

#[test]
fn the_registry_builds_one_worker_per_thread() {
    let (registry, workers) = Registry::new(&ThreadPoolBuilder { num_threads: 4 });
    assert_eq!(registry.num_threads(), 4);
    assert_eq!(current_num_threads(&registry), 4);
    assert_eq!(workers.len(), 4);
    for (i, worker) in workers.iter().enumerate() {
        assert_eq!(worker.index(), i);
    }
}

#[test]
fn a_pool_of_one_short_circuits_stealing() {
    let (_registry, workers) = Registry::new(&ThreadPoolBuilder { num_threads: 1 });
    let worker = &workers[0];
    assert_eq!(worker.steal(), None);
    assert_eq!(worker.find_work(), None);
}

#[test]
fn a_pushed_job_comes_back_off_the_local_queue() {
    let (_registry, workers) = Registry::new(&ThreadPoolBuilder { num_threads: 1 });
    let worker = &workers[0];
    let job = JobRef::new(100, 200);
    worker.push(job);
    assert_eq!(worker.take_local_job(), Some(job));
    assert_eq!(worker.take_local_job(), None);
}

#[test]
fn local_jobs_come_back_in_queue_order() {
    let (_registry, workers) = Registry::new(&ThreadPoolBuilder { num_threads: 2 });
    let worker = &workers[0];
    worker.push(JobRef::new(1, 1));
    worker.push(JobRef::new(2, 2));
    worker.push(JobRef::new(3, 3));
    assert_eq!(worker.find_work(), Some(JobRef::new(1, 1)));
    assert_eq!(worker.find_work(), Some(JobRef::new(2, 2)));
    assert_eq!(worker.find_work(), Some(JobRef::new(3, 3)));
}

#[test]
fn a_peer_can_steal_a_queued_job() {
    let (_registry, workers) = Registry::new(&ThreadPoolBuilder { num_threads: 2 });
    let job = JobRef::new(7, 8);
    workers[0].push(job);
    // Worker 1 finds nothing locally and steals worker 0's job.
    assert_eq!(workers[1].find_work(), Some(job));
    assert_eq!(workers[0].take_local_job(), None);
}

#[test]
fn an_injected_job_is_visible_to_every_worker() {
    let (registry, workers) = Registry::new(&ThreadPoolBuilder { num_threads: 2 });
    let job = JobRef::new(5, 6);
    assert!(!registry.has_injected_job());
    registry.inject(job);
    assert!(registry.has_injected_job());
    assert!(workers[1].has_injected_job());
    assert_eq!(workers[0].find_work(), Some(job));
    assert!(!registry.has_injected_job());
    assert_eq!(registry.pop_injected_job(), None);
}

#[test]
fn the_sleep_coordinator_tracks_an_idle_worker() {
    let (registry, _workers) = Registry::new(&ThreadPoolBuilder { num_threads: 2 });
    let sleep = registry.sleep();
    let idle = sleep.start_looking(0);
    assert_eq!(idle.worker_index, 0);
    assert_eq!(idle.rounds, 0);
    sleep.work_found();
}

#[test]
fn an_idle_worker_spins_then_sleeps_and_a_seen_injection_wakes_it() {
    let (registry, _workers) = Registry::new(&ThreadPoolBuilder { num_threads: 1 });
    let sleep = registry.sleep();
    let latch = CoreLatch::new();
    let mut idle = sleep.start_looking(0);
    // Every round through the announcing one and the extra yielding one
    // only asks the caller to yield.
    for round in 0..34u32 {
        assert_eq!(idle.rounds, round);
        assert!(sleep.no_work_found(&mut idle, &latch, || false));
    }
    assert_eq!(idle.rounds, 34);
    // The next empty round attempts the sleep transition; the final
    // injection check sees a job, so the worker wakes itself rather
    // than blocking, and resets its backoff entirely.
    assert!(!sleep.no_work_found(&mut idle, &latch, || true));
    assert_eq!(idle.rounds, 0);
    // The latch came back to the unset state: sleepiness can be
    // announced on it afresh.
    assert!(!latch.probe());
    assert!(latch.get_sleepy());
    sleep.work_found();
}

#[test]
fn posting_jobs_to_a_pool_with_no_sleepers_wakes_nobody() {
    let (registry, workers) = Registry::new(&ThreadPoolBuilder { num_threads: 2 });
    assert_eq!(registry.sleep().new_internal_jobs(3, true), 0);
    assert_eq!(registry.sleep().new_injected_jobs(1, false), 0);
    // A push signals the coordinator the same way.
    workers[0].push(JobRef::new(9, 9));
    assert_eq!(workers[0].take_local_job(), Some(JobRef::new(9, 9)));
}

#[test]
fn waking_a_worker_that_is_not_asleep_does_nothing() {
    let (registry, _workers) = Registry::new(&ThreadPoolBuilder { num_threads: 2 });
    assert!(!registry.sleep().wake_specific_thread(0));
    registry.notify_worker_latch_is_set(1);
}
