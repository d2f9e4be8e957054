//! Ratio arithmetic, record building and report rendering on concrete
//! values, without touching any cryptographic backend.

use sigbench::comparator::{build_record, ratio_tenths, Baseline, SizeRecord, SizeReport};
use sigbench::render::{
    format_ratio_tenths, render_bench_report, render_group_line, render_size_report, u64_to_dec,
    variant_label,
};
use sigbench::harness::{GroupResult, Operation};
use sigbench::scheme::{all_variants, fixed_message, Family, Variant};
use sigbench::stats::LatencySummary;

#[test]
fn fixed_message_is_hello_world() {
    assert_eq!(fixed_message(), b"Hello world".to_vec());
}

#[test]
fn all_variants_in_configuration_order() {
    let vs = all_variants();
    assert_eq!(vs.len(), 10);
    assert_eq!(vs[0], Variant::EcdsaK256);
    assert_eq!(vs[1], Variant::MlDsa44);
    assert_eq!(vs[2], Variant::MlDsa65);
    assert_eq!(vs[3], Variant::MlDsa87);
    assert_eq!(vs[4], Variant::SlhDsa128s);
    assert_eq!(vs[5], Variant::SlhDsa128f);
    assert_eq!(vs[6], Variant::SlhDsa192s);
    assert_eq!(vs[7], Variant::SlhDsa192f);
    assert_eq!(vs[8], Variant::SlhDsa256s);
    assert_eq!(vs[9], Variant::SlhDsa256f);
}

#[test]
fn order_is_grouped_by_family_with_baseline_first() {
    let vs = all_variants();
    assert!(vs[0].is_baseline());
    assert_eq!(vs[0].family(), Family::Classical);
    for v in &vs[1..4] {
        assert!(!v.is_baseline());
        assert_eq!(v.family(), Family::Lattice);
    }
    for v in &vs[4..10] {
        assert!(!v.is_baseline());
        assert_eq!(v.family(), Family::HashBased);
    }
}

#[test]
fn scheme_defined_lengths() {
    assert_eq!(Variant::EcdsaK256.pk_len(), 33);
    assert_eq!(Variant::EcdsaK256.sig_len(), 64);
    assert_eq!(Variant::MlDsa44.pk_len(), 1312);
    assert_eq!(Variant::MlDsa44.sig_len(), 2420);
    assert_eq!(Variant::MlDsa65.pk_len(), 1952);
    assert_eq!(Variant::MlDsa65.sig_len(), 3309);
    assert_eq!(Variant::MlDsa87.pk_len(), 2592);
    assert_eq!(Variant::MlDsa87.sig_len(), 4627);
    assert_eq!(Variant::SlhDsa128s.sig_len(), 7856);
    assert_eq!(Variant::SlhDsa128f.sig_len(), 17088);
    assert_eq!(Variant::SlhDsa192s.sig_len(), 16224);
    assert_eq!(Variant::SlhDsa192f.sig_len(), 35664);
    assert_eq!(Variant::SlhDsa256s.sig_len(), 29792);
    assert_eq!(Variant::SlhDsa256f.sig_len(), 49856);
}

#[test]
fn ratio_tenths_rounds_to_nearest() {
    // 1312 / 33 = 39.757...: one decimal place gives 39.8.
    assert_eq!(ratio_tenths(1312, 33), 398);
    // 2420 / 64 = 37.8125: one decimal place gives 37.8.
    assert_eq!(ratio_tenths(2420, 64), 378);
    // Equal lengths give exactly 1.0.
    assert_eq!(ratio_tenths(33, 33), 10);
    // A zero numerator gives 0.0.
    assert_eq!(ratio_tenths(0, 7), 0);
}

#[test]
fn ratio_is_deterministic_across_repeats() {
    let first = ratio_tenths(49856, 64);
    for _ in 0..100 {
        assert_eq!(ratio_tenths(49856, 64), first);
        assert_eq!(format_ratio_tenths(first), format_ratio_tenths(first));
    }
}

#[test]
fn decimal_rendering() {
    assert_eq!(u64_to_dec(0), "0");
    assert_eq!(u64_to_dec(7), "7");
    assert_eq!(u64_to_dec(10), "10");
    assert_eq!(u64_to_dec(1312), "1312");
    assert_eq!(u64_to_dec(18446744073709551615), "18446744073709551615");
}

#[test]
fn ratio_rendering_one_decimal_place() {
    assert_eq!(format_ratio_tenths(398), "39.8");
    assert_eq!(format_ratio_tenths(10), "1.0");
    assert_eq!(format_ratio_tenths(7), "0.7");
    assert_eq!(format_ratio_tenths(1227), "122.7");
}

#[test]
fn build_record_computes_both_ratios() {
    let b = Baseline { pk_len: 33, sig_len: 64 };
    let rec = build_record(Variant::MlDsa44, 1312, 2420, &b);
    assert_eq!(rec.variant, Variant::MlDsa44);
    assert_eq!(rec.pk_len, 1312);
    assert_eq!(rec.sig_len, 2420);
    assert_eq!(rec.pk_ratio_tenths, 398);
    assert_eq!(rec.sig_ratio_tenths, 378);
}

#[test]
fn synthetic_report_renders_in_order() {
    let b = Baseline { pk_len: 33, sig_len: 64 };
    let mut records: Vec<SizeRecord> = Vec::new();
    for v in all_variants().into_iter().skip(1) {
        records.push(build_record(v, v.pk_len(), v.sig_len(), &b));
    }
    assert_eq!(records.len(), 9);
    for rec in &records {
        assert!(rec.pk_ratio_tenths > 0);
        assert!(rec.sig_ratio_tenths > 0);
    }
    let rep = SizeReport { baseline: b, records };
    let lines = render_size_report(&rep);
    assert_eq!(lines.len(), 4 + 3 * 9);
    assert_eq!(lines[0], "=== Size Comparisons ===");
    assert_eq!(lines[1], "ECDSA (baseline):");
    assert_eq!(lines[2], "  Public Key: 33 bytes");
    assert_eq!(lines[3], "  Signature: 64 bytes");
    assert_eq!(lines[4], "ML-DSA-44:");
    assert_eq!(lines[5], "  Public Key: 1312 bytes (39.8x baseline)");
    assert_eq!(lines[6], "  Signature: 2420 bytes (37.8x baseline)");
    assert_eq!(lines[7], "ML-DSA-65:");
    assert_eq!(lines[16], "SLH-DSA-128f:");
    assert_eq!(lines[17], "  Public Key: 32 bytes (1.0x baseline)");
    assert_eq!(lines[18], "  Signature: 17088 bytes (267.0x baseline)");
}

#[test]
fn variant_labels() {
    assert_eq!(variant_label(Variant::EcdsaK256), "ECDSA (baseline)");
    assert_eq!(variant_label(Variant::MlDsa87), "ML-DSA-87");
    assert_eq!(variant_label(Variant::SlhDsa256f), "SLH-DSA-256f");
}

#[test]
fn bench_report_lines() {
    let g = GroupResult {
        variant: Variant::MlDsa44,
        operation: Operation::Sign,
        summary: LatencySummary {
            count: 10,
            total_nanos: 12345670,
            mean_nanos: 1234567,
            min_nanos: 1000000,
            max_nanos: 1500000,
            variance_nanos_sq: 20000000000,
            outliers: 2,
        },
    };
    assert_eq!(render_group_line(&g), "ML-DSA-44/sign: mean 1234567 ns over 10 samples, 2 outliers");
    let lines = render_bench_report(&vec![g]);
    assert_eq!(lines.len(), 1);
    assert_eq!(lines[0], "ML-DSA-44/sign: mean 1234567 ns over 10 samples, 2 outliers");
}
