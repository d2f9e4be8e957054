//! The size comparator: measures encoded artifact sizes per variant and
//! normalizes them against the classical baseline.
//!
//! The baseline sizes are measured exactly once, before any variant's
//! ratio is computed, and every ratio is taken against that single fixed
//! baseline.  Ratios are held in tenths (one decimal place), computed by
//! integer arithmetic rounded to the nearest tenth, so that identical
//! artifact lengths always produce bit-identical ratios.

use vstd::prelude::*;

use crate::adapter;
use crate::adapter::AdapterError;
use crate::scheme;
use crate::scheme::Variant;

verus! {

/// A length ratio against a baseline length, in tenths, rounded to the
/// nearest tenth (halves up): `round(10 * len / base)`.
pub open spec fn ratio_tenths_spec(len: nat, base: nat) -> nat
    recommends
        base > 0,
{
    (10 * len + base / 2) / base
}

/// `ratio_tenths_spec` is a function of the two lengths alone: the same
/// measured lengths always yield the same ratio.
pub proof fn lemma_ratio_deterministic(len1: nat, base1: nat, len2: nat, base2: nat)
    requires
        len1 == len2,
        base1 == base2,
    ensures
        ratio_tenths_spec(len1, base1) == ratio_tenths_spec(len2, base2),
{
}

/// A ratio of a positive length against a no-larger positive baseline is
/// strictly positive.
pub proof fn lemma_ratio_positive(len: nat, base: nat)
    requires
        0 < base,
        base <= 10 * len + base / 2,
    ensures
        ratio_tenths_spec(len, base) >= 1,
{
    let n = 10 * len + base / 2;
    assert(n / base >= 1) by (nonlinear_arith)
        requires
            0 < base,
            base <= n,
    ;
}

/// The ratio of a length to a baseline, in tenths of the baseline,
/// rounded to the nearest tenth.
pub fn ratio_tenths(len: u64, base: u64) -> (r: u64)
    requires
        0 < base,
        10 * (len as nat) + (base as nat) / 2 <= u64::MAX as nat,
    ensures
        r as nat == ratio_tenths_spec(len as nat, base as nat),
{
    let n: u128 = 10 * (len as u128) + (base as u128) / 2;
    let q: u128 = n / (base as u128);
    q as u64
}

/// The classical baseline's measured sizes, fixed before any variant's
/// ratio is computed.
pub struct Baseline {
    /// Encoded verifying-key length of the baseline scheme, in bytes.
    pub pk_len: u64,
    /// Encoded signature length of the baseline scheme, in bytes.
    pub sig_len: u64,
}

/// A usable baseline has strictly positive artifact lengths.
pub open spec fn baseline_wf(b: Baseline) -> bool {
    0 < b.pk_len && 0 < b.sig_len
}

/// Generate the baseline key pair, sign the fixed message once, and
/// record the encoded byte lengths of the verifying key and signature.
/// On success they are the scheme-defined baseline constants, 33 and 64
/// bytes, and in particular strictly positive.  The only possible
/// failure is a generation failure of the classical scheme.
pub fn measure_baseline() -> (r: Result<Baseline, AdapterError>)
    ensures
        r matches Ok(b) ==> b.pk_len as nat == Variant::EcdsaK256.pk_len_spec() && b.sig_len
            as nat == Variant::EcdsaK256.sig_len_spec() && baseline_wf(b),
        r matches Err(e) ==> e == AdapterError::Generation,
{
    let (kp, _) = adapter::generate_keypair(Variant::EcdsaK256);
    let msg = scheme::fixed_message();
    let (sig, _) = match adapter::sign(Variant::EcdsaK256, kp.sk.as_slice(), msg.as_slice()) {
        Ok(s) => s,
        Err(e) => {
            return Err(e);
        },
    };
    Ok(Baseline { pk_len: kp.vk.len() as u64, sig_len: sig.len() as u64 })
}

/// Generate one key pair for the variant, sign the fixed message once,
/// and return the encoded byte lengths of the verifying key and the
/// signature.  On success they are the variant's scheme-defined
/// constants; for the post-quantum variants success is certain.
pub fn measure_variant(v: Variant) -> (r: Result<(u64, u64), AdapterError>)
    ensures
        r matches Ok(m) ==> m.0 as nat == v.pk_len_spec() && m.1 as nat == v.sig_len_spec(),
        v != Variant::EcdsaK256 ==> r is Ok,
        r matches Err(e) ==> e == AdapterError::Generation,
{
    let (kp, _) = adapter::generate_keypair(v);
    let msg = scheme::fixed_message();
    let (sig, _) = match adapter::sign(v, kp.sk.as_slice(), msg.as_slice()) {
        Ok(s) => s,
        Err(e) => {
            return Err(e);
        },
    };
    Ok((kp.vk.len() as u64, sig.len() as u64))
}

/// One variant's row of the comparison report.
pub struct SizeRecord {
    /// The variant the row describes.
    pub variant: Variant,
    /// Measured encoded verifying-key length, in bytes.
    pub pk_len: u64,
    /// Measured encoded signature length, in bytes.
    pub sig_len: u64,
    /// Verifying-key length over the baseline's, in tenths.
    pub pk_ratio_tenths: u64,
    /// Signature length over the baseline's, in tenths.
    pub sig_ratio_tenths: u64,
}

/// A record carries the variant's scheme-defined lengths and the ratios
/// of those lengths against the given baseline.
pub open spec fn record_matches(rec: SizeRecord, v: Variant, b: Baseline) -> bool {
    &&& rec.variant == v
    &&& rec.pk_len as nat == v.pk_len_spec()
    &&& rec.sig_len as nat == v.sig_len_spec()
    &&& rec.pk_ratio_tenths as nat == ratio_tenths_spec(v.pk_len_spec(), b.pk_len as nat)
    &&& rec.sig_ratio_tenths as nat == ratio_tenths_spec(v.sig_len_spec(), b.sig_len as nat)
}

/// Build one report row from measured lengths and the fixed baseline.
pub fn build_record(v: Variant, pk_len: u64, sig_len: u64, b: &Baseline) -> (rec: SizeRecord)
    requires
        baseline_wf(*b),
        pk_len as nat == v.pk_len_spec(),
        sig_len as nat == v.sig_len_spec(),
    ensures
        record_matches(rec, v, *b),
{
    proof {
        assert(10 * (pk_len as nat) + (b.pk_len as nat) / 2 <= u64::MAX as nat);
        assert(10 * (sig_len as nat) + (b.sig_len as nat) / 2 <= u64::MAX as nat);
    }
    SizeRecord {
        variant: v,
        pk_len,
        sig_len,
        pk_ratio_tenths: ratio_tenths(pk_len, b.pk_len),
        sig_ratio_tenths: ratio_tenths(sig_len, b.sig_len),
    }
}

/// A comparison failure: the variant whose adapter call failed, with
/// the underlying error.
#[derive(Clone, Copy, Debug, PartialEq, Eq, Structural)]
pub struct ComparisonError {
    /// The variant whose measurement failed.
    pub variant: Variant,
    /// The underlying adapter error.
    pub error: AdapterError,
}

/// The full size-comparison result: the fixed baseline and one row per
/// non-baseline variant, in the configured emission order.
pub struct SizeReport {
    /// The classical baseline sizes, measured once.
    pub baseline: Baseline,
    /// One row per non-baseline variant, in emission order.
    pub records: Vec<SizeRecord>,
}

/// A complete report: the baseline holds the scheme-defined classical
/// sizes, and row `i` describes the `i + 1`-th variant of the emission
/// order with both of its ratios strictly positive.
pub open spec fn report_wf(rep: SizeReport) -> bool {
    &&& rep.baseline.pk_len as nat == Variant::EcdsaK256.pk_len_spec()
    &&& rep.baseline.sig_len as nat == Variant::EcdsaK256.sig_len_spec()
    &&& rep.records@.len() == scheme::variant_order().len() - 1
    &&& forall|i: int|
        0 <= i < rep.records@.len() ==> record_matches(
            #[trigger] rep.records@[i],
            scheme::variant_order()[i + 1],
            rep.baseline,
        )
    &&& forall|i: int|
        0 <= i < rep.records@.len() ==> (#[trigger] rep.records@[i]).pk_ratio_tenths >= 1
            && rep.records@[i].sig_ratio_tenths >= 1
}

/// Run the whole size comparison: measure the baseline first, then every
/// non-baseline variant in the configured order, producing exactly one
/// public-key ratio and one signature ratio per variant.  Any adapter
/// failure aborts the run with its error; no partial report is returned.
/// Only the classical baseline can fail, and only in key generation or
/// signing, so a failure always names it and the generation error.
pub fn run_size_comparison() -> (r: Result<SizeReport, ComparisonError>)
    ensures
        r matches Ok(rep) ==> report_wf(rep),
        r matches Err(e) ==> e.variant == Variant::EcdsaK256 && e.error
            == AdapterError::Generation,
{
    let b = match measure_baseline() {
        Ok(b) => b,
        Err(e) => {
            return Err(ComparisonError { variant: Variant::EcdsaK256, error: e });
        },
    };
    let variants = scheme::all_variants();
    let mut records: Vec<SizeRecord> = Vec::new();
    let mut i: usize = 1;
    while i < variants.len()
        invariant
            variants@ == scheme::variant_order(),
            1 <= i <= variants@.len(),
            records@.len() == i - 1,
            baseline_wf(b),
            b.pk_len as nat == Variant::EcdsaK256.pk_len_spec(),
            b.sig_len as nat == Variant::EcdsaK256.sig_len_spec(),
            forall|j: int|
                0 <= j < records@.len() ==> record_matches(
                    #[trigger] records@[j],
                    scheme::variant_order()[j + 1],
                    b,
                ),
            forall|j: int|
                0 <= j < records@.len() ==> (#[trigger] records@[j]).pk_ratio_tenths >= 1
                    && records@[j].sig_ratio_tenths >= 1,
        decreases variants@.len() - i,
    {
        let v = variants[i];
        let (pk_len, sig_len) = match measure_variant(v) {
            Ok(m) => m,
            // The emission order places the classical scheme only at
            // index zero, and every other variant measures infallibly.
            Err(_) => {
                proof {
                    scheme::lemma_order_grouped_by_family();
                }
                vstd::pervasive::unreached()
            },
        };
        let rec = build_record(v, pk_len, sig_len, &b);
        proof {
            lemma_ratio_positive(v.pk_len_spec(), b.pk_len as nat);
            lemma_ratio_positive(v.sig_len_spec(), b.sig_len as nat);
        }
        records.push(rec);
        i = i + 1;
    }
    Ok(SizeReport { baseline: b, records })
}

} // verus!
