use mini_rayon::LengthSplitter;
use mini_rayon::Splitter;

#[test]
fn a_fresh_budget_is_one_split_per_thread() {
    let s = Splitter::new(4);
    assert_eq!(s.splits, 4);
}

#[test]
fn an_unstolen_split_halves_the_budget() {
    let mut s = Splitter::new(4);
    assert!(s.try_split(false, 4));
    assert_eq!(s.splits, 2);
    assert!(s.try_split(false, 4));
    assert_eq!(s.splits, 1);
    assert!(s.try_split(false, 4));
    assert_eq!(s.splits, 0);
    assert!(!s.try_split(false, 4));
    assert_eq!(s.splits, 0);
}

#[test]
fn a_stolen_task_splits_and_resets_its_budget() {
    let mut s = Splitter::new(4);
    while s.try_split(false, 4) {}
    assert_eq!(s.splits, 0);
    assert!(s.try_split(true, 4));
    assert_eq!(s.splits, 4);
}

#[test]
fn a_stolen_task_keeps_a_larger_remaining_budget() {
    let mut s = Splitter::new(16);
    assert!(s.try_split(true, 4));
    // Half of 16 beats the thread count of 4.
    assert_eq!(s.splits, 8);
}

#[test]
fn the_length_rule_clamps_min_to_one() {
    let s = LengthSplitter::new(0, usize::MAX, 100, 4);
    assert_eq!(s.min, 1);
}

#[test]
fn a_small_max_len_raises_the_budget() {
    let s = LengthSplitter::new(1, 10, 100, 4);
    assert_eq!(s.inner.splits, 10);
    let s = LengthSplitter::new(1, usize::MAX, 100, 4);
    assert_eq!(s.inner.splits, 4);
}

#[test]
fn a_half_under_min_len_refuses_to_split() {
    let mut s = LengthSplitter::new(8, usize::MAX, 100, 4);
    // 10 / 2 = 5 < 8: refused even though budget remains.
    assert!(!s.try_split(10, false, 4));
    assert_eq!(s.inner.splits, 4);
    // 16 / 2 = 8 >= 8: allowed, budget halves.
    assert!(s.try_split(16, false, 4));
    assert_eq!(s.inner.splits, 2);
}

#[test]
fn min_len_equal_to_len_forces_a_single_leaf() {
    let len = 64;
    let mut s = LengthSplitter::new(len, usize::MAX, len, 8);
    assert!(!s.try_split(len, false, 8));
    assert!(!s.try_split(len, true, 8));
}

#[test]
fn a_single_item_never_splits() {
    let mut s = LengthSplitter::new(1, usize::MAX, 1, 8);
    assert!(!s.try_split(1, false, 8));
    assert!(!s.try_split(1, true, 8));
}
