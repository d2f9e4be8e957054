//! Sample aggregation on concrete values.

use sigbench::stats::{summarize, LatencySummary};

#[test]
fn summarize_empty_group_has_no_summary() {
    assert!(summarize(&Vec::new()).is_none());
}

#[test]
fn summarize_computes_mean_min_max() {
    let s: LatencySummary = summarize(&vec![5, 9, 7]).unwrap();
    assert_eq!(s.count, 3);
    assert_eq!(s.total_nanos, 21);
    assert_eq!(s.mean_nanos, 7);
    assert_eq!(s.min_nanos, 5);
    assert_eq!(s.max_nanos, 9);
    // Squared deviations 4, 4, 0 sum to 8; the population variance is
    // 8 / 3 = 2, and no deviation squared exceeds four times it.
    assert_eq!(s.variance_nanos_sq, 2);
    assert_eq!(s.outliers, 0);
}

#[test]
fn summarize_single_sample() {
    let s = summarize(&vec![42]).unwrap();
    assert_eq!(s.count, 1);
    assert_eq!(s.total_nanos, 42);
    assert_eq!(s.mean_nanos, 42);
    assert_eq!(s.min_nanos, 42);
    assert_eq!(s.max_nanos, 42);
    assert_eq!(s.variance_nanos_sq, 0);
    assert_eq!(s.outliers, 0);
}

#[test]
fn summarize_classifies_outliers() {
    // Mean 20; deviations 19, 19, 19, 19, 80; squared sum 7844 gives
    // variance 1568, and only 80^2 = 6400 exceeds 4 * 1568 = 6272.
    let s = summarize(&vec![1, 1, 1, 1, 100]).unwrap();
    assert_eq!(s.mean_nanos, 20);
    assert_eq!(s.variance_nanos_sq, 1568);
    assert_eq!(s.outliers, 1);
}

#[test]
fn mean_of_positive_samples_is_positive() {
    let s = summarize(&vec![1, 1, 2, 3]).unwrap();
    assert!(s.mean_nanos >= 1);
    assert!(s.mean_nanos <= s.max_nanos);
    assert!(s.min_nanos <= s.mean_nanos || s.mean_nanos >= 1);
}
