//! The timing harness: per-variant, per-operation latency measurement
//! groups with a fixed sampling policy.
//!
//! Each group measures one operation of one variant in isolation.  A
//! group keeps sampling until both its fixed minimum sample count and
//! its minimum measurement window of accumulated measured time are
//! satisfied (up to a hard iteration cap that keeps a stalled clock from
//! hanging the run).  Key generation is sampled fresh each iteration,
//! randomness acquisition included; signing and verification reuse one
//! key pair and one signature prepared outside the measured loop, and
//! the measured window of every sample covers the cryptographic call
//! alone.

use vstd::prelude::*;

use crate::adapter;
use crate::adapter::AdapterError;
use crate::backend::KeyPairBytes;
use crate::scheme;
use crate::scheme::Family;
use crate::scheme::Variant;
use crate::stats;
use crate::stats::LatencySummary;

verus! {

/// The three measured signature-lifecycle operations.
#[derive(Clone, Copy, Debug, PartialEq, Eq, Structural)]
pub enum Operation {
    /// Fresh key-pair generation, including its randomness draw.
    KeyGen,
    /// Signing the fixed message with a prepared key.
    Sign,
    /// Verifying a prepared (message, signature, key) triple.
    Verify,
}

/// The fixed order in which a variant's operations are measured.
pub open spec fn operation_order() -> Seq<Operation> {
    seq![Operation::KeyGen, Operation::Sign, Operation::Verify]
}

/// The sampling policy of one measurement group.
pub struct BenchConfig {
    /// Number of unrecorded warm-up iterations before measuring.
    pub warmup_count: usize,
    /// Minimum number of samples per group.
    pub sample_count: usize,
    /// Minimum accumulated measured time per group, in nanoseconds.
    pub min_window_nanos: u64,
    /// Hard cap on iterations per group, so a clock that reads zero
    /// forever cannot hang a run.
    pub max_samples: usize,
}

/// A usable configuration: at least one sample, a window short enough
/// to accumulate without overflow, and a cap no smaller than the count.
pub open spec fn config_wf(c: BenchConfig) -> bool {
    &&& 1 <= c.sample_count <= c.max_samples
    &&& c.min_window_nanos <= 3_600_000_000_000
}

/// The documented default policy: a few warm-up iterations, then a
/// minimum measurement window of ten seconds of sampled wall-clock time
/// and ten samples per group.
pub fn default_config() -> (c: BenchConfig)
    ensures
        c.warmup_count == 3,
        c.sample_count == 10,
        c.min_window_nanos == 10_000_000_000u64,
        config_wf(c),
{
    BenchConfig {
        warmup_count: 3,
        sample_count: 10,
        min_window_nanos: 10_000_000_000,
        max_samples: 1_000_000,
    }
}

/// The artifacts a variant's measurement groups share: one key pair and
/// one signature over the fixed message, both produced outside any
/// measured loop.
pub struct PreparedVariant {
    /// The variant being measured.
    pub variant: Variant,
    /// The prepared key pair, in canonical encoding.
    pub keypair: KeyPairBytes,
    /// The prepared signature over the fixed message.
    pub signature: Vec<u8>,
    /// The fixed message.
    pub message: Vec<u8>,
}

/// Prepared artifacts carry the scheme-defined encoded lengths of their
/// variant and sign the fixed message.
pub open spec fn prepared_wf(p: PreparedVariant) -> bool {
    &&& adapter::keypair_wf(p.keypair, p.variant)
    &&& p.signature@.len() == p.variant.sig_len_spec()
    &&& p.message@ == scheme::fixed_message_spec()
}

/// Generate the shared artifacts for one variant's measurement pass.
/// For the post-quantum variants preparation is certain to succeed.
pub fn prepare_variant(v: Variant) -> (r: Result<PreparedVariant, AdapterError>)
    ensures
        r matches Ok(p) ==> prepared_wf(p) && p.variant == v,
        v != Variant::EcdsaK256 ==> r is Ok,
{
    let (kp, _) = adapter::generate_keypair(v);
    let msg = scheme::fixed_message();
    let (sig, _) = match adapter::sign(v, kp.sk.as_slice(), msg.as_slice()) {
        Ok(s) => s,
        Err(e) => {
            return Err(e);
        },
    };
    Ok(PreparedVariant { variant: v, keypair: kp, signature: sig, message: msg })
}

/// Take one latency sample of one operation: the elapsed nanoseconds of
/// the cryptographic call alone.  Any adapter failure propagates and
/// aborts the group.  Key generation always samples; so does signing
/// for every post-quantum variant and verification for every
/// hash-based variant, where the adapter promises success on the
/// well-formed prepared artifacts.
pub fn sample_operation(p: &PreparedVariant, op: Operation) -> (r: Result<u64, AdapterError>)
    requires
        prepared_wf(*p),
    ensures
        op == Operation::KeyGen ==> r is Ok,
        op == Operation::Sign && p.variant != Variant::EcdsaK256 ==> r is Ok,
        op == Operation::Verify && p.variant.family_spec() == Family::HashBased ==> r is Ok,
{
    match op {
        Operation::KeyGen => {
            let (_, nanos) = adapter::generate_keypair(p.variant);
            Ok(nanos)
        },
        Operation::Sign => {
            match adapter::sign(p.variant, p.keypair.sk.as_slice(), p.message.as_slice()) {
                Ok((_, nanos)) => Ok(nanos),
                Err(e) => Err(e),
            }
        },
        Operation::Verify => {
            match adapter::verify(
                p.variant,
                p.keypair.vk.as_slice(),
                p.message.as_slice(),
                p.signature.as_slice(),
            ) {
                Ok((_, nanos)) => Ok(nanos),
                Err(e) => Err(e),
            }
        },
    }
}

/// Collect one group's samples: run the unrecorded warm-up iterations
/// first, then keep sampling until the minimum sample count is reached
/// and the accumulated measured time fills the minimum window, up to
/// the iteration cap.  On success the group holds at
/// least the configured number of samples, and the window was filled
/// unless the cap cut the group short.
pub fn collect_samples(p: &PreparedVariant, op: Operation, cfg: &BenchConfig) -> (r: Result<
    Vec<u64>,
    AdapterError,
>)
    requires
        prepared_wf(*p),
        config_wf(*cfg),
    ensures
        r matches Ok(s) ==> cfg.sample_count <= s@.len() <= cfg.max_samples,
        r matches Ok(s) ==> stats::sum_spec(s@) >= cfg.min_window_nanos || s@.len()
            == cfg.max_samples,
        op == Operation::KeyGen ==> r is Ok,
        op == Operation::Sign && p.variant != Variant::EcdsaK256 ==> r is Ok,
        op == Operation::Verify && p.variant.family_spec() == Family::HashBased ==> r is Ok,
{
    let mut w: usize = 0;
    while w < cfg.warmup_count
        invariant
            prepared_wf(*p),
            w <= cfg.warmup_count,
        decreases cfg.warmup_count - w,
    {
        match sample_operation(p, op) {
            Ok(_) => (),
            Err(e) => {
                return Err(e);
            },
        }
        w = w + 1;
    }
    let mut samples: Vec<u64> = Vec::new();
    let mut acc: u64 = 0;
    while samples.len() < cfg.sample_count || (acc < cfg.min_window_nanos && samples.len()
        < cfg.max_samples)
        invariant
            prepared_wf(*p),
            config_wf(*cfg),
            samples@.len() <= cfg.max_samples,
            acc <= cfg.min_window_nanos,
            acc < cfg.min_window_nanos ==> acc == stats::sum_spec(samples@),
            acc == cfg.min_window_nanos ==> stats::sum_spec(samples@) >= cfg.min_window_nanos,
        decreases cfg.max_samples - samples@.len(),
    {
        let nanos = match sample_operation(p, op) {
            Ok(n) => n,
            Err(e) => {
                return Err(e);
            },
        };
        proof {
            stats::lemma_sum_push(samples@, nanos);
        }
        samples.push(nanos);
        if nanos >= cfg.min_window_nanos - acc {
            acc = cfg.min_window_nanos;
        } else {
            acc = acc + nanos;
        }
    }
    Ok(samples)
}

/// A benchmark failure: the variant and operation whose adapter call
/// failed, with the underlying error.
#[derive(Clone, Copy, Debug, PartialEq, Eq, Structural)]
pub struct BenchError {
    /// The variant whose measurement pass failed.
    pub variant: Variant,
    /// The operation whose adapter call failed.
    pub operation: Operation,
    /// The underlying adapter error.
    pub error: AdapterError,
}

/// One finished measurement group: the latency distribution of one
/// operation of one variant.
pub struct GroupResult {
    /// The measured variant.
    pub variant: Variant,
    /// The measured operation.
    pub operation: Operation,
    /// The group's aggregated latency statistics.
    pub summary: LatencySummary,
}

/// Run one isolated measurement group and aggregate its samples.
pub fn run_group(p: &PreparedVariant, op: Operation, cfg: &BenchConfig) -> (r: Result<
    GroupResult,
    AdapterError,
>)
    requires
        prepared_wf(*p),
        config_wf(*cfg),
    ensures
        r matches Ok(g) ==> g.variant == p.variant && g.operation == op && g.summary.count
            >= cfg.sample_count,
        op == Operation::KeyGen ==> r is Ok,
        op == Operation::Sign && p.variant != Variant::EcdsaK256 ==> r is Ok,
        op == Operation::Verify && p.variant.family_spec() == Family::HashBased ==> r is Ok,
{
    let samples = match collect_samples(p, op, cfg) {
        Ok(s) => s,
        Err(e) => {
            return Err(e);
        },
    };
    match stats::summarize(&samples) {
        Some(summary) => Ok(GroupResult { variant: p.variant, operation: op, summary }),
        // A group always holds at least one sample, so a summary exists.
        None => vstd::pervasive::unreached(),
    }
}

/// Measure all three operations of one variant, in the fixed operation
/// order, sharing one prepared key pair and signature.  A failure names
/// the variant and operation; for the hash-based variants every group
/// is certain to complete.
pub fn run_variant(v: Variant, cfg: &BenchConfig) -> (r: Result<Vec<GroupResult>, BenchError>)
    requires
        config_wf(*cfg),
    ensures
        r matches Ok(gs) ==> gs@.len() == 3 && forall|j: int|
            0 <= j < 3 ==> (#[trigger] gs@[j]).variant == v && gs@[j].operation
                == operation_order()[j] && gs@[j].summary.count >= cfg.sample_count,
        r matches Err(f) ==> f.variant == v,
        v.family_spec() == Family::HashBased ==> r is Ok,
{
    // Preparing the shared artifacts signs the fixed message once, so a
    // preparation failure is a failure of the signing operation.
    let p = match prepare_variant(v) {
        Ok(p) => p,
        Err(e) => {
            return Err(BenchError { variant: v, operation: Operation::Sign, error: e });
        },
    };
    let mut gs: Vec<GroupResult> = Vec::new();
    let g0 = match run_group(&p, Operation::KeyGen, cfg) {
        Ok(g) => g,
        Err(e) => {
            return Err(BenchError { variant: v, operation: Operation::KeyGen, error: e });
        },
    };
    gs.push(g0);
    let g1 = match run_group(&p, Operation::Sign, cfg) {
        Ok(g) => g,
        Err(e) => {
            return Err(BenchError { variant: v, operation: Operation::Sign, error: e });
        },
    };
    gs.push(g1);
    let g2 = match run_group(&p, Operation::Verify, cfg) {
        Ok(g) => g,
        Err(e) => {
            return Err(BenchError { variant: v, operation: Operation::Verify, error: e });
        },
    };
    gs.push(g2);
    Ok(gs)
}

/// Run the full benchmark suite: every configured variant, each with its
/// three operation groups, strictly one variant after another.  On
/// success the groups come back in emission order — three per variant,
/// operations in the fixed order — and every group met the configured
/// sample count.  A failure names one of the configured variants, and
/// never a hash-based one: their passes are certain to complete.
pub fn run_benchmarks(cfg: &BenchConfig) -> (r: Result<Vec<GroupResult>, BenchError>)
    requires
        config_wf(*cfg),
    ensures
        r matches Ok(gs) ==> gs@.len() == 3 * scheme::variant_order().len() && forall|
            i: int,
            j: int,
        |
            0 <= i < scheme::variant_order().len() && 0 <= j < 3 ==> (#[trigger] gs@[3 * i
                + j]).variant == scheme::variant_order()[i] && gs@[3 * i + j].operation
                == operation_order()[j] && gs@[3 * i + j].summary.count >= cfg.sample_count,
        r matches Err(f) ==> scheme::variant_order().contains(f.variant)
            && f.variant.family_spec() != Family::HashBased,
{
    let variants = scheme::all_variants();
    let mut gs: Vec<GroupResult> = Vec::new();
    let mut i: usize = 0;
    while i < variants.len()
        invariant
            config_wf(*cfg),
            variants@ == scheme::variant_order(),
            0 <= i <= variants@.len(),
            gs@.len() == 3 * i,
            forall|k: int, j: int|
                0 <= k < i && 0 <= j < 3 ==> (#[trigger] gs@[3 * k + j]).variant
                    == scheme::variant_order()[k] && gs@[3 * k + j].operation
                    == operation_order()[j] && gs@[3 * k + j].summary.count >= cfg.sample_count,
        decreases variants@.len() - i,
    {
        let v = variants[i];
        let mut vg = match run_variant(v, cfg) {
            Ok(g) => g,
            Err(e) => {
                proof {
                    assert(scheme::variant_order()[i as int] == e.variant);
                    assert(scheme::variant_order().contains(e.variant));
                }
                return Err(e);
            },
        };
        let ghost old_gs = gs@;
        let ghost vg_view = vg@;
        gs.append(&mut vg);
        proof {
            assert(gs@ =~= old_gs + vg_view);
            assert forall|k: int, j: int| 0 <= k < i + 1 && 0 <= j < 3 implies (#[trigger] gs@[3 * k
                + j]).variant == scheme::variant_order()[k] && gs@[3 * k + j].operation
                == operation_order()[j] && gs@[3 * k + j].summary.count >= cfg.sample_count by {
                if k < i {
                    assert(3 * k + j < 3 * i) by (nonlinear_arith)
                        requires
                            k < i && j < 3 && 0 <= j,
                    ;
                    assert(gs@[3 * k + j] == old_gs[3 * k + j]);
                } else {
                    assert(3 * k + j - 3 * i == j) by (nonlinear_arith)
                        requires
                            k == i,
                    ;
                    assert(gs@[3 * k + j] == vg_view[j]);
                }
            }
        }
        i = i + 1;
    }
    Ok(gs)
}

} // verus!
