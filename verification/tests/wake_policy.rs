use mini_rayon::Counters;
use mini_rayon::JobRef;
use mini_rayon::JoinAction;
use mini_rayon::next_join_action;
use mini_rayon::wake_quota;

fn snapshot(sleeping: u64, inactive: u64) -> Counters {
    Counters::new(sleeping | (inactive << 16))
}

#[test]
fn no_sleepers_means_no_wakeups() {
    assert_eq!(wake_quota(snapshot(0, 4), 5, true), 0);
    assert_eq!(wake_quota(snapshot(0, 4), 5, false), 0);
}

#[test]
fn an_empty_queue_wakes_one_sleeper_per_job() {
    // Three sleepers, two jobs: both jobs get a sleeper.
    assert_eq!(wake_quota(snapshot(3, 5), 2, true), 2);
    // Three sleepers, five jobs: every sleeper is woken.
    assert_eq!(wake_quota(snapshot(3, 5), 5, true), 3);
}

#[test]
fn a_nonempty_queue_wakes_only_the_shortfall() {
    // Two awake-but-idle workers cover one job: nobody is woken.
    assert_eq!(wake_quota(snapshot(3, 5), 1, false), 0);
    // Four jobs, two covered: the shortfall of two is woken.
    assert_eq!(wake_quota(snapshot(3, 5), 4, false), 2);
    // A shortfall beyond the sleepers is clamped to them.
    assert_eq!(wake_quota(snapshot(3, 5), 40, false), 3);
}

#[test]
fn every_inactive_worker_asleep_leaves_no_idle_cover() {
    // sleeping == inactive: no awake-but-idle worker covers anything.
    assert_eq!(wake_quota(snapshot(2, 2), 1, false), 1);
    assert_eq!(wake_quota(snapshot(2, 2), 1, true), 1);
}

#[test]
fn the_forking_worker_recognizes_its_own_right_half() {
    let own = JobRef::new(4, 2);
    assert!(matches!(next_join_action(Some(own), own), JoinAction::RunInline));
    let other = JobRef::new(5, 2);
    match next_join_action(Some(other), own) {
        JoinAction::Execute(job) => assert_eq!(job, other),
        _ => panic!("a foreign job must be executed"),
    }
    assert!(matches!(next_join_action(None, own), JoinAction::Wait));
}
