use bclean::estimate_size_async;
use bclean::SizeEstimator;
use bclean::SizeProgress;

#[test]
fn empty_walk_reports_nothing() {
    let reports = estimate_size_async(&vec![]);
    assert!(reports.is_empty());
}

#[test]
fn small_walk_reports_one_total() {
    let reports = estimate_size_async(&vec![1, 2, 3]);
    assert_eq!(reports, vec![6]);
}

#[test]
fn exactly_one_batch_reports_once() {
    let sizes: Vec<u64> = vec![1; 1001];
    let reports = estimate_size_async(&sizes);
    assert_eq!(reports, vec![1001]);
}

#[test]
fn a_trailing_partial_batch_reports_again() {
    let mut sizes: Vec<u64> = vec![2; 1001];
    sizes.push(5);
    let reports = estimate_size_async(&sizes);
    assert_eq!(reports, vec![2002, 2007]);
}

#[test]
fn cumulative_sequence_is_non_decreasing_and_ends_at_the_sum() {
    let sizes: Vec<u64> = (0..2500u64).collect();
    let reports = estimate_size_async(&sizes);
    assert_eq!(reports.len(), 3);
    for pair in reports.windows(2) {
        assert!(pair[0] <= pair[1]);
    }
    let total: u64 = sizes.iter().sum();
    assert_eq!(*reports.last().unwrap(), total);
}

#[test]
fn estimator_reports_at_batch_boundaries_only() {
    let mut estimator = SizeEstimator::new();
    for _ in 0..1000 {
        assert_eq!(estimator.consume(1), None);
    }
    assert_eq!(estimator.consume(1), Some(1001));
    assert_eq!(estimator.consume(4), None);
    assert_eq!(estimator.finish(), Some(1005));
}

#[test]
fn estimator_finish_is_silent_after_a_full_batch() {
    let mut estimator = SizeEstimator::new();
    for _ in 0..1001 {
        estimator.consume(3);
    }
    assert_eq!(estimator.finish(), None);
}

#[test]
fn fresh_estimator_finishes_empty() {
    let estimator = SizeEstimator::new();
    assert_eq!(estimator.finish(), None);
}

#[test]
fn size_progress_keeps_value_and_finality_together() {
    let mut progress = SizeProgress::new();
    assert_eq!(progress.bytes, 0);
    assert!(!progress.is_final);
    progress.record_partial(100);
    assert_eq!(progress.bytes, 100);
    assert!(!progress.is_final);
    progress.record_final(240);
    assert_eq!(progress.bytes, 240);
    assert!(progress.is_final);
}
