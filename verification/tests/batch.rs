//! Tests of the paging-aware retry of batched foreign mappings.

use xenclient::call::{sub_batch, BatchRetry, BatchStep, CallGate, RetryDecision};
use xenclient::sys::ENOENT_ERRNO;

fn gate() -> CallGate {
    CallGate::new(15).unwrap()
}

#[test]
fn batch_paging_retries_the_middle_run_once() {
    // First issue returned the pager's errno with the two middle entries
    // marked; the re-issue of that length-2 run succeeds.
    let mut errors = vec![0, ENOENT_ERRNO, ENOENT_ERRNO, 0];
    let mut retry = BatchRetry::new(4);
    match retry.next_run(&errors) {
        BatchStep::Issue { start, len } => {
            assert_eq!((start, len), (1, 2));
            // Stub kernel: the sub-batch succeeds and clears its errors.
            errors[1] = 0;
            errors[2] = 0;
        }
        BatchStep::Done { .. } => panic!("a paged run exists"),
    }
    // The run ended before the end of the array, so the pass finishes.
    assert_eq!(retry.after_issue(false, 0, 2), RetryDecision::Finish);
    assert_eq!(retry.paged(), 1);
    assert!(errors.iter().all(|e| *e == 0));
}

#[test]
fn batch_with_every_entry_paged_terminates() {
    let errors = vec![ENOENT_ERRNO; 4];
    let mut retry = BatchRetry::new(4);
    match retry.next_run(&errors) {
        BatchStep::Issue { start, len } => assert_eq!((start, len), (0, 4)),
        BatchStep::Done { .. } => panic!("a paged run exists"),
    }
    // The run reached the end and the sub-batch made progress: one more
    // scan confirms nothing is left.
    assert_eq!(retry.after_issue(false, 0, 4), RetryDecision::Continue);
    match retry.next_run(&errors) {
        BatchStep::Done { paged } => assert_eq!(paged, 1),
        BatchStep::Issue { .. } => panic!("the scan is past the end"),
    }
}

#[test]
fn batch_aborts_on_a_hard_errno() {
    let errors = vec![ENOENT_ERRNO, 0];
    let mut retry = BatchRetry::new(2);
    match retry.next_run(&errors) {
        BatchStep::Issue { start, len } => assert_eq!((start, len), (0, 1)),
        BatchStep::Done { .. } => panic!("a paged run exists"),
    }
    // EINVAL from the sub-batch is not the pager: surface it.
    assert_eq!(retry.after_issue(true, 22, -1), RetryDecision::Abort);
}

#[test]
fn batch_finishes_when_the_final_run_stays_paged() {
    let errors = vec![ENOENT_ERRNO, ENOENT_ERRNO];
    let mut retry = BatchRetry::new(2);
    match retry.next_run(&errors) {
        BatchStep::Issue { start, len } => assert_eq!((start, len), (0, 2)),
        BatchStep::Done { .. } => panic!("a paged run exists"),
    }
    // The pager answered again with its errno: stop rather than spin.
    assert_eq!(retry.after_issue(true, ENOENT_ERRNO, -1), RetryDecision::Finish);
    assert_eq!(retry.paged(), 1);
}

#[test]
fn batch_without_paged_entries_is_done_at_once() {
    let errors = vec![0, 0, 0];
    let mut retry = BatchRetry::new(3);
    match retry.next_run(&errors) {
        BatchStep::Done { paged } => assert_eq!(paged, 0),
        BatchStep::Issue { .. } => panic!("no paged run exists"),
    }
}

#[test]
fn sub_batches_offset_every_address_by_the_run_start() {
    let g = gate();
    let base = g.mmap_batch(5, 4, 0x10000, 0x20000, 0x30000);
    assert_eq!(base.num, 4);
    assert_eq!(base.domid, 5);
    let sub = sub_batch(&base, 3, 1);
    assert_eq!(sub.num, 1);
    assert_eq!(sub.domid, 5);
    assert_eq!(sub.addr, 0x10000 + 3 * 4096);
    assert_eq!(sub.mfns_addr, 0x20000 + 3 * 8);
    assert_eq!(sub.errors_addr, 0x30000 + 3 * 4);
}
