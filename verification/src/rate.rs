//! Two-sample rate derivation.
//!
//! CPU utilization cannot be read instantaneously: the collector takes two
//! samples of cumulative busy counters separated by a fixed wait, and derives
//! each core's busy share from the deltas. The derived share is clamped into
//! [0, 100%] per logical core; a counter that wrapped or decreased over the
//! window counts as zero rather than producing a negative rate.

use vstd::prelude::*;

verus! {

/// One sample of the cumulative busy counters, one entry per logical core,
/// in the sampler's tick unit.
pub struct RawCounters {
    pub core_busy: Vec<u64>,
}

/// Rates derived from two samples, in hundredths of a percent
/// (10000 stands for 100%).
pub struct RateMetrics {
    pub per_core_hundredths: Vec<u32>,
    pub total_hundredths: u32,
}

/// The busy share of one core over a sampling window, in hundredths of a
/// percent: the counter delta divided by the elapsed ticks, clamped into
/// [0, 10000]. An empty window or a counter that decreased yields zero.
pub open spec fn spec_core_rate(a: u64, b: u64, elapsed: u64) -> u32 {
    if elapsed == 0 || b <= a {
        0u32
    } else if (b - a) * 10000 / (elapsed as int) > 10000 {
        10000u32
    } else {
        ((b - a) * 10000 / (elapsed as int)) as u32
    }
}

/// The average of the per-core rates, zero when there is no core.
pub open spec fn spec_total_rate(per_core: Seq<u32>) -> int {
    if per_core.len() == 0 {
        0
    } else {
        sum_of(per_core) / (per_core.len() as int)
    }
}

/// The sum of a sequence of rates.
pub open spec fn sum_of(s: Seq<u32>) -> int
    decreases s.len(),
{
    if s.len() == 0 {
        0
    } else {
        sum_of(s.drop_last()) + s.last()
    }
}

/// Law: a derived per-core rate never exceeds 100% and, being unsigned,
/// is never negative — also when the counters wrap or decrease between
/// the two samples.
pub proof fn lemma_core_rate_bounded(a: u64, b: u64, elapsed: u64)
    ensures
        0 <= spec_core_rate(a, b, elapsed) <= 10000,
{
}

/// One core's rate over the window.
pub fn core_rate(a: u64, b: u64, elapsed: u64) -> (r: u32)
    ensures
        r == spec_core_rate(a, b, elapsed),
        r <= 10000,
{
    if elapsed == 0 || b <= a {
        0
    } else {
        let d: u128 = ((b - a) as u128) * 10000 / (elapsed as u128);
        if d > 10000 {
            10000
        } else {
            d as u32
        }
    }
}

/// Derives the per-core rates and their average from two samples taken
/// `elapsed` ticks apart — the baseline `a` strictly before `b`. Every
/// derived rate lies in [0, 100%].
pub fn compute_deltas(a: &RawCounters, b: &RawCounters, elapsed: u64) -> (m: RateMetrics)
    requires
        a.core_busy@.len() == b.core_busy@.len(),
    ensures
        m.per_core_hundredths@.len() == a.core_busy@.len(),
        forall|i: int|
            0 <= i < m.per_core_hundredths@.len() ==> #[trigger] m.per_core_hundredths@[i]
                == spec_core_rate(a.core_busy@[i], b.core_busy@[i], elapsed),
        forall|i: int|
            0 <= i < m.per_core_hundredths@.len() ==> #[trigger] m.per_core_hundredths@[i]
                <= 10000,
        m.total_hundredths == spec_total_rate(m.per_core_hundredths@),
        m.total_hundredths <= 10000,
{
    let n = a.core_busy.len();
    let mut per_core: Vec<u32> = Vec::new();
    let mut sum: u128 = 0;
    let mut i: usize = 0;
    while i < n
        invariant
            n == a.core_busy@.len(),
            n == b.core_busy@.len(),
            i <= n,
            per_core@.len() == i,
            forall|j: int|
                0 <= j < i ==> #[trigger] per_core@[j] == spec_core_rate(
                    a.core_busy@[j],
                    b.core_busy@[j],
                    elapsed,
                ),
            forall|j: int| 0 <= j < i ==> #[trigger] per_core@[j] <= 10000,
            sum == sum_of(per_core@),
            sum <= 10000 * i,
        decreases n - i,
    {
        let r = core_rate(a.core_busy[i], b.core_busy[i], elapsed);
        proof {
            assert(per_core@.push(r).drop_last() =~= per_core@);
        }
        per_core.push(r);
        sum = sum + r as u128;
        i = i + 1;
    }
    let total: u32 = if i == 0 {
        0
    } else {
        proof {
            assert(sum / (i as u128) <= 10000) by (nonlinear_arith)
                requires
                    sum <= 10000 * (i as u128),
                    i > 0,
            ;
        }
        (sum / (i as u128)) as u32
    };
    RateMetrics { per_core_hundredths: per_core, total_hundredths: total }
}

} // verus!
