//! Latency-sample aggregation: sums, means and extremes of a group of
//! elapsed-nanosecond observations.
//!
//! Raw samples are aggregated into a [`LatencySummary`] and then
//! discarded by the caller; nothing here persists across groups, so one
//! variant's statistics can never contaminate another's.

use vstd::prelude::*;

verus! {

/// The sum of a sequence of samples.
pub open spec fn sum_spec(s: Seq<u64>) -> nat
    decreases s.len(),
{
    if s.len() == 0 {
        0
    } else {
        sum_spec(s.drop_last()) + s.last() as nat
    }
}

/// Appending one sample adds exactly its value to the sum.
pub proof fn lemma_sum_push(s: Seq<u64>, x: u64)
    ensures
        sum_spec(s.push(x)) == sum_spec(s) + x,
{
    assert(s.push(x).drop_last() =~= s);
}

/// A lower bound on every sample is a lower bound on the sum, scaled by
/// the number of samples.
pub proof fn lemma_sum_lower(s: Seq<u64>, lo: u64)
    requires
        forall|i: int| 0 <= i < s.len() ==> #[trigger] s[i] >= lo,
    ensures
        sum_spec(s) >= s.len() * lo,
    decreases s.len(),
{
    if s.len() == 0 {
    } else {
        lemma_sum_lower(s.drop_last(), lo);
        assert(s.last() >= lo);
        assert((s.len() - 1) * lo + lo == s.len() * lo) by (nonlinear_arith);
    }
}

/// An upper bound on every sample is an upper bound on the sum, scaled
/// by the number of samples.
pub proof fn lemma_sum_upper(s: Seq<u64>, hi: u64)
    requires
        forall|i: int| 0 <= i < s.len() ==> #[trigger] s[i] <= hi,
    ensures
        sum_spec(s) <= s.len() * hi,
    decreases s.len(),
{
    if s.len() == 0 {
    } else {
        lemma_sum_upper(s.drop_last(), hi);
        assert(s.last() <= hi);
        assert((s.len() - 1) * hi + hi == s.len() * hi) by (nonlinear_arith);
    }
}

/// If a group is non-empty and every sample in it is a strictly positive
/// duration, its mean is strictly positive as well.
pub proof fn lemma_mean_positive(s: Seq<u64>)
    requires
        s.len() > 0,
        forall|i: int| 0 <= i < s.len() ==> #[trigger] s[i] >= 1,
    ensures
        sum_spec(s) / s.len() >= 1,
{
    lemma_sum_lower(s, 1);
    assert(sum_spec(s) / s.len() >= 1) by (nonlinear_arith)
        requires
            sum_spec(s) >= s.len() && s.len() > 0,
    ;
}

/// The mean never exceeds the largest sample.
pub proof fn lemma_mean_le_max(s: Seq<u64>, hi: u64)
    requires
        s.len() > 0,
        forall|i: int| 0 <= i < s.len() ==> #[trigger] s[i] <= hi,
    ensures
        sum_spec(s) / s.len() <= hi,
{
    lemma_sum_upper(s, hi);
    assert(sum_spec(s) / s.len() <= hi) by (nonlinear_arith)
        requires
            sum_spec(s) <= s.len() * hi && s.len() > 0,
    ;
}

/// Addition capped at the largest `u128` value, which no real group of
/// nanosecond deviations can reach.
pub open spec fn sat_add_u128(a: nat, b: nat) -> nat {
    if a + b > u128::MAX as nat {
        u128::MAX as nat
    } else {
        a + b
    }
}

/// The absolute deviation of a sample from the mean.
pub open spec fn dev_spec(x: u64, m: u64) -> nat {
    if x >= m {
        (x - m) as nat
    } else {
        (m - x) as nat
    }
}

/// The sum of squared deviations from the mean, capped at the `u128`
/// limit.
pub open spec fn sum_sq_dev_spec(s: Seq<u64>, m: u64) -> nat
    decreases s.len(),
{
    if s.len() == 0 {
        0
    } else {
        sat_add_u128(sum_sq_dev_spec(s.drop_last(), m), dev_spec(s.last(), m) * dev_spec(s.last(), m))
    }
}

/// Appending one sample caps in exactly its squared deviation.
pub proof fn lemma_sum_sq_dev_push(s: Seq<u64>, x: u64, m: u64)
    ensures
        sum_sq_dev_spec(s.push(x), m) == sat_add_u128(
            sum_sq_dev_spec(s, m),
            dev_spec(x, m) * dev_spec(x, m),
        ),
{
    assert(s.push(x).drop_last() =~= s);
}

/// The population variance of a group around the given mean: the capped
/// sum of squared deviations over the sample count.
pub open spec fn variance_spec(s: Seq<u64>, m: u64) -> nat
    recommends
        s.len() > 0,
{
    sum_sq_dev_spec(s, m) / s.len()
}

/// A sample is classified an outlier when its deviation from the mean
/// exceeds twice the standard deviation — compared in squares, so no
/// square root is needed.
pub open spec fn is_outlier_spec(x: u64, m: u64, var: nat) -> bool {
    dev_spec(x, m) * dev_spec(x, m) > 4 * var
}

/// The number of outliers in a group.
pub open spec fn outlier_count_spec(s: Seq<u64>, m: u64, var: nat) -> nat
    decreases s.len(),
{
    if s.len() == 0 {
        0
    } else {
        outlier_count_spec(s.drop_last(), m, var) + if is_outlier_spec(s.last(), m, var) {
            1nat
        } else {
            0nat
        }
    }
}

/// Appending one sample adds one to the count exactly when it is an
/// outlier.
pub proof fn lemma_outlier_count_push(s: Seq<u64>, x: u64, m: u64, var: nat)
    ensures
        outlier_count_spec(s.push(x), m, var) == outlier_count_spec(s, m, var) + if is_outlier_spec(
            x,
            m,
            var,
        ) {
            1nat
        } else {
            0nat
        },
{
    assert(s.push(x).drop_last() =~= s);
}

/// Never more outliers than samples.
pub proof fn lemma_outlier_count_le_len(s: Seq<u64>, m: u64, var: nat)
    ensures
        outlier_count_spec(s, m, var) <= s.len(),
    decreases s.len(),
{
    if s.len() > 0 {
        lemma_outlier_count_le_len(s.drop_last(), m, var);
    }
}

/// The aggregated latency distribution of one measurement group.
pub struct LatencySummary {
    /// Number of samples aggregated.
    pub count: u64,
    /// Sum of all samples, in nanoseconds.
    pub total_nanos: u128,
    /// Integer mean of the samples, in nanoseconds.
    pub mean_nanos: u64,
    /// Smallest sample, in nanoseconds.
    pub min_nanos: u64,
    /// Largest sample, in nanoseconds.
    pub max_nanos: u64,
    /// Population variance around the mean, in nanoseconds squared.
    pub variance_nanos_sq: u128,
    /// Samples whose deviation from the mean exceeds twice the standard
    /// deviation.
    pub outliers: u64,
}

/// The summary that a sequence of samples aggregates to.
pub open spec fn summary_matches(sm: LatencySummary, s: Seq<u64>) -> bool {
    &&& sm.count == s.len()
    &&& sm.total_nanos == sum_spec(s)
    &&& sm.mean_nanos == sum_spec(s) / s.len()
    &&& (exists|i: int| 0 <= i < s.len() && s[i] == sm.min_nanos)
    &&& (exists|i: int| 0 <= i < s.len() && s[i] == sm.max_nanos)
    &&& forall|i: int| 0 <= i < s.len() ==> sm.min_nanos <= #[trigger] s[i] <= sm.max_nanos
    &&& sm.variance_nanos_sq == variance_spec(s, sm.mean_nanos)
    &&& sm.outliers == outlier_count_spec(s, sm.mean_nanos, sm.variance_nanos_sq as nat)
}

/// Aggregate one group's samples into count, total, mean, minimum,
/// maximum, variance and outlier count.  An empty group has no summary.
pub fn summarize(samples: &Vec<u64>) -> (r: Option<LatencySummary>)
    ensures
        r is None <==> samples@.len() == 0,
        r matches Some(sm) ==> summary_matches(sm, samples@),
{
    if samples.len() == 0 {
        return None;
    }
    let mut total: u128 = samples[0] as u128;
    let mut min: u64 = samples[0];
    let mut max: u64 = samples[0];
    let mut i: usize = 1;
    proof {
        assert(sum_spec(samples@.take(0)) == 0);
        assert(samples@.take(1).drop_last() =~= samples@.take(0));
        assert(samples@.take(1).last() == samples@[0]);
        assert(sum_spec(samples@.take(1)) == samples@[0]);
    }
    while i < samples.len()
        invariant
            1 <= i <= samples@.len(),
            i <= u64::MAX,
            total == sum_spec(samples@.take(i as int)),
            exists|j: int| 0 <= j < i && samples@[j] == min,
            exists|j: int| 0 <= j < i && samples@[j] == max,
            forall|j: int| 0 <= j < i ==> min <= #[trigger] samples@[j] <= max,
        decreases samples@.len() - i,
    {
        let x = samples[i];
        proof {
            lemma_sum_upper(samples@.take(i as int), u64::MAX);
            assert((i as nat) * (u64::MAX as nat) + (u64::MAX as nat) <= u128::MAX as nat)
                by (nonlinear_arith)
                requires
                    i as nat <= u64::MAX as nat,
            ;
            assert(samples@.take(i + 1).drop_last() =~= samples@.take(i as int));
        }
        total = total + x as u128;
        if x < min {
            min = x;
        }
        if x > max {
            max = x;
        }
        i = i + 1;
    }
    proof {
        assert(samples@.take(samples@.len() as int) =~= samples@);
        lemma_mean_le_max(samples@, max);
    }
    let mean: u64 = (total / (samples.len() as u128)) as u64;
    let mut sumsq: u128 = 0;
    let mut k: usize = 0;
    while k < samples.len()
        invariant
            0 <= k <= samples@.len(),
            sumsq == sum_sq_dev_spec(samples@.take(k as int), mean),
        decreases samples@.len() - k,
    {
        let x = samples[k];
        let d: u64 = if x >= mean {
            x - mean
        } else {
            mean - x
        };
        proof {
            assert((d as nat) * (d as nat) < u128::MAX as nat) by (nonlinear_arith)
                requires
                    d as nat <= u64::MAX as nat,
            ;
            assert(samples@.take(k as int).push(x) =~= samples@.take(k + 1));
            lemma_sum_sq_dev_push(samples@.take(k as int), x, mean);
        }
        let sq: u128 = (d as u128) * (d as u128);
        if sq > u128::MAX - sumsq {
            sumsq = u128::MAX;
        } else {
            sumsq = sumsq + sq;
        }
        k = k + 1;
    }
    proof {
        assert(samples@.take(samples@.len() as int) =~= samples@);
    }
    let variance: u128 = sumsq / (samples.len() as u128);
    let mut outliers: u64 = 0;
    let mut k: usize = 0;
    while k < samples.len()
        invariant
            0 <= k <= samples@.len(),
            outliers == outlier_count_spec(samples@.take(k as int), mean, variance as nat),
            outliers <= k,
        decreases samples@.len() - k,
    {
        let x = samples[k];
        let d: u64 = if x >= mean {
            x - mean
        } else {
            mean - x
        };
        proof {
            assert((d as nat) * (d as nat) < u128::MAX as nat) by (nonlinear_arith)
                requires
                    d as nat <= u64::MAX as nat,
            ;
            assert(samples@.take(k as int).push(x) =~= samples@.take(k + 1));
            lemma_outlier_count_push(samples@.take(k as int), x, mean, variance as nat);
        }
        let sq: u128 = (d as u128) * (d as u128);
        // When the variance is enormous, four times it exceeds every
        // representable squared deviation, so nothing is an outlier.
        let is_out: bool = if variance > u128::MAX / 4 {
            proof {
                assert(4 * (variance as nat) > u128::MAX as nat) by (nonlinear_arith)
                    requires
                        variance as nat > (u128::MAX as nat) / 4,
                ;
            }
            false
        } else {
            proof {
                assert(4 * (variance as nat) <= u128::MAX as nat) by (nonlinear_arith)
                    requires
                        variance as nat <= (u128::MAX as nat) / 4,
                ;
            }
            sq > 4 * variance
        };
        if is_out {
            outliers = outliers + 1;
        }
        k = k + 1;
    }
    proof {
        assert(samples@.take(samples@.len() as int) =~= samples@);
    }
    Some(
        LatencySummary {
            count: samples.len() as u64,
            total_nanos: total,
            mean_nanos: mean,
            min_nanos: min,
            max_nanos: max,
            variance_nanos_sq: variance,
            outliers,
        },
    )
}

} // verus!
