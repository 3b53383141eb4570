use mini_rayon::CoreLatch;
use mini_rayon::Latch;
use mini_rayon::LatchRef;
use mini_rayon::LockLatch;
use mini_rayon::OnceLatch;

#[test]
fn a_fresh_core_latch_is_not_set() {
    let latch = CoreLatch::new();
    assert!(!latch.probe());
}

#[test]
fn the_owner_walks_unset_sleepy_sleeping_and_back() {
    let latch = CoreLatch::new();
    assert!(latch.get_sleepy());
    // A second announcement loses: the state is already SLEEPY.
    assert!(!latch.get_sleepy());
    assert!(latch.fall_asleep());
    assert!(!latch.fall_asleep());
    // Waking from SLEEPING returns to UNSET, so sleepiness can be
    // announced afresh.
    latch.wake_up();
    assert!(!latch.probe());
    assert!(latch.get_sleepy());
}

#[test]
fn setting_reports_whether_the_owner_was_sleeping() {
    let awake = CoreLatch::new();
    assert!(!awake.set());
    assert!(awake.probe());

    let asleep = CoreLatch::new();
    assert!(asleep.get_sleepy());
    assert!(asleep.fall_asleep());
    assert!(asleep.set());
    assert!(asleep.probe());
}

#[test]
fn a_set_latch_never_leaves_set() {
    let latch = CoreLatch::new();
    assert!(!latch.set());
    // Every owner-side transition leaves the terminal state alone.
    latch.wake_up();
    assert!(latch.probe());
    assert!(!latch.get_sleepy());
    assert!(latch.probe());
    assert!(!latch.fall_asleep());
    assert!(latch.probe());
    assert!(!latch.set());
    assert!(latch.probe());
}

#[test]
fn a_lock_latch_set_before_the_wait_falls_through_and_resets() {
    let latch = LockLatch::new();
    Latch::set(&latch);
    latch.wait_and_reset();
    // The reset makes the latch reusable.
    Latch::set(&latch);
    latch.wait_and_reset();
}

#[test]
fn a_latch_ref_sets_the_latch_it_borrows() {
    let latch = LockLatch::new();
    let latch_ref = LatchRef::new(&latch);
    Latch::set(&latch_ref);
    latch.wait_and_reset();
}

#[test]
fn a_once_latch_exposes_its_core() {
    let latch = OnceLatch::new();
    assert!(!mini_rayon::AsCoreLatch::as_core_latch(&latch).probe());
}
