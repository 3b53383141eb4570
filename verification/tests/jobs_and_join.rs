use mini_rayon::FnContext;
use mini_rayon::JobRef;
use mini_rayon::JobResult;
use mini_rayon::LockLatch;
use mini_rayon::StackJob;
use mini_rayon::join_context;

#[test]
fn a_job_ref_is_identified_by_its_token_pair() {
    let a = JobRef::new(12, 34);
    let b = JobRef::new(12, 34);
    let c = JobRef::new(12, 35);
    assert_eq!(a.id(), b.id());
    assert_ne!(a.id(), c.id());
    assert_eq!(a, b);
    assert_ne!(a, c);
}

#[test]
fn a_job_result_carries_the_closure_value() {
    let result = JobResult::call(|stolen| if stolen { 10 } else { 20 });
    assert_eq!(result.into_return_value(), 10);
}

#[test]
fn a_stack_job_runs_inline_with_the_stolen_flag() {
    let job = StackJob::new(|stolen: bool| if stolen { 1 } else { 2 }, LockLatch::new());
    assert_eq!(job.run_inline(false), 2);

    let job = StackJob::new(|stolen: bool| if stolen { 1 } else { 2 }, LockLatch::new());
    assert_eq!(job.run_inline(true), 1);
}

#[test]
fn an_executed_stack_job_sets_its_latch_and_keeps_the_result() {
    let mut job = StackJob::new(|_stolen: bool| 7 * 6, LockLatch::new());
    job.execute();
    // The latch was set after the result slot was populated.
    job.latch().wait_and_reset();
    assert_eq!(job.into_result(), 42);
}

#[test]
fn fn_context_reports_its_migration_flag() {
    assert!(!FnContext::new(false).migrated());
    assert!(FnContext::new(true).migrated());
}

#[test]
fn join_context_returns_both_values_in_order() {
    let (a, b) = join_context(|_| 7, |_| 11);
    assert_eq!((a, b), (7, 11));
}

#[test]
fn join_context_runs_neither_closure_as_migrated() {
    let (a, b) = join_context(|ctx: FnContext| ctx.migrated(), |ctx: FnContext| ctx.migrated());
    assert!(!a);
    assert!(!b);
}

#[test]
fn join_context_composes() {
    let (left, right) = join_context(
        |_| join_context(|_| 1, |_| 2),
        |_| join_context(|_| 3, |_| 4),
    );
    assert_eq!(left, (1, 2));
    assert_eq!(right, (3, 4));
}
