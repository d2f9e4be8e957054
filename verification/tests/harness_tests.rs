//! Timing-harness tests with a small sampling policy, so that a group
//! completes quickly while still exercising the window and count logic.

use sigbench::harness::{
    collect_samples, default_config, prepare_variant, run_group, run_variant, BenchConfig,
    Operation,
};
use sigbench::scheme::Variant;

fn quick_config() -> BenchConfig {
    BenchConfig { warmup_count: 1, sample_count: 3, min_window_nanos: 1_000, max_samples: 1_000 }
}

#[test]
fn default_policy_is_ten_seconds_and_ten_samples() {
    let c = default_config();
    assert_eq!(c.warmup_count, 3);
    assert_eq!(c.sample_count, 10);
    assert_eq!(c.min_window_nanos, 10_000_000_000);
}

#[test]
fn group_meets_sample_count_and_window() {
    let p = prepare_variant(Variant::EcdsaK256).unwrap();
    let cfg = quick_config();
    let samples = collect_samples(&p, Operation::Sign, &cfg).unwrap();
    assert!(samples.len() >= cfg.sample_count);
    assert!(samples.len() <= cfg.max_samples);
    let total: u128 = samples.iter().map(|&n| n as u128).sum();
    assert!(total >= cfg.min_window_nanos as u128 || samples.len() == cfg.max_samples);
}

#[test]
fn group_summary_has_positive_mean() {
    let p = prepare_variant(Variant::EcdsaK256).unwrap();
    let cfg = quick_config();
    for op in [Operation::KeyGen, Operation::Sign, Operation::Verify] {
        let g = run_group(&p, op, &cfg).unwrap();
        assert_eq!(g.variant, Variant::EcdsaK256);
        assert_eq!(g.operation, op);
        assert!(g.summary.count >= 3);
        assert!(g.summary.mean_nanos > 0);
        assert!(g.summary.min_nanos <= g.summary.mean_nanos);
        assert!(g.summary.mean_nanos <= g.summary.max_nanos);
    }
}

#[test]
fn hash_based_verify_group_always_completes() {
    // For a hash-based variant the whole chain is contractually certain
    // to succeed; exercise one of its groups end to end.
    let p = prepare_variant(Variant::SlhDsa128f).unwrap();
    let g = run_group(&p, Operation::Verify, &quick_config()).unwrap();
    assert_eq!(g.variant, Variant::SlhDsa128f);
    assert_eq!(g.operation, Operation::Verify);
    assert!(g.summary.count >= 3);
}

#[test]
fn variant_pass_measures_all_three_operations_in_order() {
    let gs = run_variant(Variant::MlDsa44, &quick_config()).unwrap();
    assert_eq!(gs.len(), 3);
    assert_eq!(gs[0].operation, Operation::KeyGen);
    assert_eq!(gs[1].operation, Operation::Sign);
    assert_eq!(gs[2].operation, Operation::Verify);
    for g in &gs {
        assert_eq!(g.variant, Variant::MlDsa44);
        assert!(g.summary.count >= 3);
        assert!(g.summary.mean_nanos > 0);
    }
}
