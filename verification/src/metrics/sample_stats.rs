//! Descriptive statistics over a window of tick durations.
//!
//! The model ranks the samples in ascending order and reads the extremes,
//! the median and the percentiles off that ranking.  Mean and standard
//! deviation are integer floors of their exact values.

use vstd::prelude::*;
use vstd::relations::{sorted_by, total_ordering};
use vstd::seq_lib::lemma_sorted_unique;

verus! {

/// Snapshot of the statistics of one sampling window, in microseconds.
///
/// A snapshot with `count == 0` stands for "no data", not for a measurement.
#[derive(Debug, Clone, Copy, PartialEq, Eq, Structural)]
pub struct SampleStats {
    pub min: u32,
    pub max: u32,
    pub median: u32,
    pub mean: u32,
    pub std_dev: u32,
    pub p95: u32,
    pub p99: u32,
    pub count: usize,
}

/// Largest square of a distance between two samples.
pub const MAX_SQUARE: u64 = 0xFFFF_FFFE_0000_0001;

/// The order in which samples are ranked.
pub open spec fn at_most() -> spec_fn(u32, u32) -> bool {
    |a: u32, b: u32| a <= b
}

/// The samples in ascending order.
pub open spec fn ascending(s: Seq<u32>) -> Seq<u32> {
    s.sort_by(at_most())
}

/// Sum of the samples.
pub open spec fn total(s: Seq<u32>) -> int
    decreases s.len(),
{
    if s.len() == 0 {
        0
    } else {
        total(s.drop_last()) + s.last()
    }
}

/// Sum of the squared distances of the samples from `center`.
pub open spec fn squared_deviations(s: Seq<u32>, center: int) -> int
    decreases s.len(),
{
    if s.len() == 0 {
        0
    } else {
        squared_deviations(s.drop_last(), center) + (s.last() - center) * (s.last() - center)
    }
}

/// Arithmetic mean of a non-empty window, rounded down.
pub open spec fn mean_of(s: Seq<u32>) -> int {
    total(s) / (s.len() as int)
}

/// Population variance of a non-empty window around its rounded mean,
/// rounded down: the squared deviations are divided by the sample count.
pub open spec fn variance_of(s: Seq<u32>) -> int {
    squared_deviations(s, mean_of(s)) / (s.len() as int)
}

/// `root` is the square root of `value`, rounded down.
pub open spec fn is_floor_sqrt(root: int, value: int) -> bool {
    0 <= root && root * root <= value < (root + 1) * (root + 1)
}

/// Rank of the `percent`-th percentile among `n` ranked samples:
/// `floor(n * percent / 100)`, held to the last valid rank.
pub open spec fn percentile_index(n: int, percent: int) -> int {
    let raw = (n * percent) / 100;
    if raw < n {
        raw
    } else {
        n - 1
    }
}

/// Median of a non-empty ranked window: the middle sample, or the rounded-down
/// average of the two middle samples when their number is even.
pub open spec fn median_of(ranked: Seq<u32>) -> int {
    let n = ranked.len() as int;
    if n % 2 == 0 {
        (ranked[n / 2 - 1] + ranked[n / 2]) / 2
    } else {
        ranked[n / 2] as int
    }
}

/// The statistics of the window `s`: the one snapshot that describes it.
pub open spec fn stats_of(s: Seq<u32>) -> SampleStats {
    choose|stats: SampleStats| stats.describes(s)
}

impl SampleStats {
    /// The snapshot of an empty window: every field zero.
    pub open spec fn zero() -> SampleStats {
        SampleStats { min: 0, max: 0, median: 0, mean: 0, std_dev: 0, p95: 0, p99: 0, count: 0 }
    }

    /// Whether this snapshot is the statistics of the window `s`.
    pub open spec fn describes(self, s: Seq<u32>) -> bool {
        if s.len() == 0 {
            self == Self::zero()
        } else {
            let ranked = ascending(s);
            let n = s.len() as int;
            &&& self.count == n
            &&& self.min == ranked[0]
            &&& self.max == ranked[n - 1]
            &&& self.median == median_of(ranked)
            &&& self.mean == mean_of(s)
            &&& is_floor_sqrt(self.std_dev as int, variance_of(s))
            &&& self.p95 == ranked[percentile_index(n, 95)]
            &&& self.p99 == ranked[percentile_index(n, 99)]
        }
    }

    /// Computes the statistics of a window of tick durations.
    ///
    /// An empty window yields the all-zero snapshot.
    pub fn from_samples(samples: &Vec<u32>) -> (stats: SampleStats)
        ensures
            stats.describes(samples@),
            stats == stats_of(samples@),
            stats.count == samples@.len(),
            samples@.len() == 0 ==> stats == SampleStats::zero(),
    {
        let n: usize = samples.len();
        if n == 0 {
            proof {
                assert(SampleStats::zero().describes(samples@));
                lemma_stats_unique(SampleStats::zero(), stats_of(samples@), samples@);
            }
            return SampleStats {
                min: 0,
                max: 0,
                median: 0,
                mean: 0,
                std_dev: 0,
                p95: 0,
                p99: 0,
                count: 0,
            };
        }
        let mut ranked: Vec<u32> = copy_of(samples);
        sort_ascending(&mut ranked);
        proof {
            lemma_ascending_ranks(samples@);
            lemma_sorted_unique(ranked@, ascending(samples@), at_most());
            assert(ranked@ == ascending(samples@));
            lemma_within_extremes(samples@);
        }
        let min: u32 = ranked[0];
        let max: u32 = ranked[n - 1];
        let mid: usize = n / 2;
        let median: u32 = if n % 2 == 0 {
            let below: u64 = ranked[mid - 1] as u64;
            let above: u64 = ranked[mid] as u64;
            ((below + above) / 2) as u32
        } else {
            ranked[mid]
        };
        let sum: u128 = sum_of(samples);
        proof {
            lemma_total_bounds(samples@, min as int, max as int);
            lemma_quotient_bounds(total(samples@), n as int, min as int, max as int);
        }
        let mean: u32 = (sum / (n as u128)) as u32;
        let spread: u128 = sum_of_squared_deviations(samples, mean);
        proof {
            lemma_quotient_bounds(
                squared_deviations(samples@, mean as int),
                n as int,
                0,
                MAX_SQUARE as int,
            );
        }
        let variance: u64 = (spread / (n as u128)) as u64;
        let std_dev: u32 = floor_sqrt(variance);
        let p95: u32 = ranked[percentile_rank(n, 95)];
        let p99: u32 = ranked[percentile_rank(n, 99)];
        let stats = SampleStats { min, max, median, mean, std_dev, p95, p99, count: n };
        proof {
            assert(stats.describes(samples@));
            lemma_stats_unique(stats, stats_of(samples@), samples@);
        }
        stats
    }

    /// Whether the median is above `target_us`.
    pub fn median_exceeds(&self, target_us: u32) -> (over: bool)
        ensures
            over == (self.median > target_us),
    {
        self.median > target_us
    }
}

/// Sorts `values` in place with `slice::sort`.
///
/// Trusted: afterwards the elements stand in ascending order, and they are
/// the elements that were there before, each as often as before.
#[verifier::external_body]
fn sort_ascending(values: &mut Vec<u32>)
    ensures
        sorted_by(final(values)@, at_most()),
        final(values)@.to_multiset() == old(values)@.to_multiset(),
{
    values.sort();
}

/// A fresh vector holding the same samples in the same order.
fn copy_of(samples: &Vec<u32>) -> (copy: Vec<u32>)
    ensures
        copy@ == samples@,
{
    let mut copy: Vec<u32> = Vec::with_capacity(samples.len());
    let mut i: usize = 0;
    while i < samples.len()
        invariant
            i <= samples.len(),
            copy@ == samples@.take(i as int),
        decreases samples.len() - i,
    {
        copy.push(samples[i]);
        assert(samples@.take(i + 1) == samples@.take(i as int).push(samples@[i as int]));
        i += 1;
    }
    assert(samples@.take(samples.len() as int) == samples@);
    copy
}

/// Rank of the `percent`-th percentile among `n` ranked samples.
pub fn percentile_rank(n: usize, percent: u8) -> (rank: usize)
    requires
        n > 0,
    ensures
        rank == percentile_index(n as int, percent as int),
        rank < n,
{
    assert(n * percent <= 0xFFFF_FFFF_FFFF_FFFF * 255) by (nonlinear_arith)
        requires
            0 <= n <= 0xFFFF_FFFF_FFFF_FFFF,
            0 <= percent <= 255,
    ;
    let raw: u128 = (n as u128) * (percent as u128) / 100;
    if raw < n as u128 {
        raw as usize
    } else {
        n - 1
    }
}

/// Sum of the samples.
fn sum_of(samples: &Vec<u32>) -> (sum: u128)
    ensures
        sum == total(samples@),
{
    let mut sum: u128 = 0;
    let mut i: usize = 0;
    while i < samples.len()
        invariant
            i <= samples.len(),
            sum == total(samples@.take(i as int)),
            sum <= i * 0xFFFF_FFFF,
        decreases samples.len() - i,
    {
        assert(samples@.take(i + 1).drop_last() == samples@.take(i as int));
        sum = sum + samples[i] as u128;
        i += 1;
    }
    assert(samples@.take(samples.len() as int) == samples@);
    sum
}

/// Sum of the squared distances of the samples from `center`.
fn sum_of_squared_deviations(samples: &Vec<u32>, center: u32) -> (sum: u128)
    ensures
        sum == squared_deviations(samples@, center as int),
        sum <= samples@.len() * MAX_SQUARE,
{
    let mut sum: u128 = 0;
    let mut i: usize = 0;
    while i < samples.len()
        invariant
            i <= samples.len(),
            sum == squared_deviations(samples@.take(i as int), center as int),
            sum <= i * MAX_SQUARE,
        decreases samples.len() - i,
    {
        assert(samples@.take(i + 1).drop_last() == samples@.take(i as int));
        let x: u32 = samples[i];
        let distance: u64 = if x >= center {
            (x - center) as u64
        } else {
            (center - x) as u64
        };
        assert(distance * distance <= MAX_SQUARE) by (nonlinear_arith)
            requires
                0 <= distance <= 0xFFFF_FFFF,
        ;
        assert(distance * distance == (x - center) * (x - center)) by (nonlinear_arith)
            requires
                distance == x - center || distance == center - x,
        ;
        assert((i + 1) * MAX_SQUARE == i * MAX_SQUARE
            + MAX_SQUARE) by (nonlinear_arith);
        let square: u64 = distance * distance;
        sum = sum + square as u128;
        i += 1;
    }
    assert(samples@.take(samples.len() as int) == samples@);
    sum
}

/// Square root of `value`, rounded down.
pub fn floor_sqrt(value: u64) -> (root: u32)
    ensures
        is_floor_sqrt(root as int, value as int),
{
    let mut low: u64 = 0;
    let mut high: u64 = 0x1_0000_0000;
    while high - low > 1
        invariant
            low < high <= 0x1_0000_0000,
            low * low <= value < high * high,
        decreases high - low,
    {
        let mid: u64 = low + (high - low) / 2;
        assert(mid * mid <= MAX_SQUARE) by (nonlinear_arith)
            requires
                0 <= mid <= 0xFFFF_FFFF,
        ;
        if mid * mid <= value {
            low = mid;
        } else {
            high = mid;
        }
    }
    low as u32
}

/// Ranking by `at_most` is a total order, so the ascending ranking of a
/// window is sorted and holds each sample as often as the window does.
pub proof fn lemma_ascending_ranks(s: Seq<u32>)
    ensures
        total_ordering(at_most()),
        sorted_by(ascending(s), at_most()),
        ascending(s).to_multiset() == s.to_multiset(),
        ascending(s).len() == s.len(),
{
    assert(total_ordering(at_most())) by {
        assert(vstd::relations::reflexive(at_most()));
        assert(vstd::relations::antisymmetric(at_most()));
        assert(vstd::relations::transitive(at_most()));
        assert(vstd::relations::strongly_connected(at_most()));
    }
    s.lemma_sort_by_ensures(at_most());
    s.to_multiset_ensures();
    ascending(s).to_multiset_ensures();
}

/// The first ranked sample is the least sample of the window and the last
/// ranked sample its greatest: both occur in the window, and every sample
/// lies between them.
pub proof fn lemma_within_extremes(s: Seq<u32>)
    requires
        s.len() > 0,
    ensures
        s.contains(ascending(s)[0]),
        s.contains(ascending(s)[s.len() - 1]),
        forall|i: int| 0 <= i < s.len() ==> ascending(s)[0] <= #[trigger] s[i] <= ascending(s)[s.len() - 1],
{
    let ranked = ascending(s);
    lemma_ascending_ranks(s);
    s.to_multiset_ensures();
    ranked.to_multiset_ensures();
    assert(ranked.contains(ranked[0]));
    assert(ranked.contains(ranked[s.len() - 1]));
    assert(s.to_multiset().count(ranked[0]) > 0);
    assert(s.to_multiset().count(ranked[s.len() - 1]) > 0);
    assert forall|i: int| 0 <= i < s.len() implies ranked[0] <= #[trigger] s[i] <= ranked[s.len()
        - 1] by {
        assert(s.contains(s[i]));
        assert(ranked.to_multiset().count(s[i]) > 0);
        assert(ranked.contains(s[i]));
        let j = choose|j: int| 0 <= j < ranked.len() && ranked[j] == s[i];
        assert(0 < j ==> at_most()(ranked[0], ranked[j]));
        assert(j < s.len() - 1 ==> at_most()(ranked[j], ranked[s.len() - 1]));
    }
}

/// A sum of samples that all lie in `[low, high]` lies in `[n * low, n * high]`.
pub proof fn lemma_total_bounds(s: Seq<u32>, low: int, high: int)
    requires
        forall|i: int| 0 <= i < s.len() ==> low <= #[trigger] s[i] <= high,
    ensures
        s.len() * low <= total(s) <= s.len() * high,
    decreases s.len(),
{
    if s.len() > 0 {
        let rest = s.drop_last();
        assert forall|i: int| 0 <= i < rest.len() implies low <= #[trigger] rest[i] <= high by {
            assert(rest[i] == s[i]);
        }
        lemma_total_bounds(rest, low, high);
        assert(s.len() * low == rest.len() * low + low) by (nonlinear_arith)
            requires
                s.len() == rest.len() + 1,
        ;
        assert(s.len() * high == rest.len() * high + high) by (nonlinear_arith)
            requires
                s.len() == rest.len() + 1,
        ;
    }
}

/// A total that lies in `[n * low, n * high]` has its rounded-down average
/// in `[low, high]`.
pub proof fn lemma_quotient_bounds(sum: int, n: int, low: int, high: int)
    requires
        n > 0,
        n * low <= sum <= n * high,
    ensures
        low <= sum / n <= high,
{
    assert(low <= sum / n <= high) by (nonlinear_arith)
        requires
            n > 0,
            n * low <= sum <= n * high,
    ;
}

/// The statistics of a non-empty window are ordered: the median, the mean
/// and both percentiles lie between the minimum and the maximum, and the
/// 95th percentile is at most the 99th.
pub proof fn lemma_stats_ordered(stats: SampleStats, s: Seq<u32>)
    requires
        s.len() > 0,
        stats.describes(s),
    ensures
        stats.min <= stats.median <= stats.max,
        stats.min <= stats.mean <= stats.max,
        stats.min <= stats.p95 <= stats.p99 <= stats.max,
{
    let ranked = ascending(s);
    let n = s.len() as int;
    lemma_ascending_ranks(s);
    lemma_within_extremes(s);
    lemma_total_bounds(s, ranked[0] as int, ranked[n - 1] as int);
    lemma_quotient_bounds(total(s), n, ranked[0] as int, ranked[n - 1] as int);
    assert forall|i: int, j: int| 0 <= i <= j < n implies ranked[i] <= ranked[j] by {
        if i < j {
            assert(at_most()(ranked[i], ranked[j]));
        }
    }
    let r95 = percentile_index(n, 95);
    let r99 = percentile_index(n, 99);
    assert(0 <= r95 <= r99 < n) by (nonlinear_arith)
        requires
            n > 0,
            r95 == percentile_index(n, 95),
            r99 == percentile_index(n, 99),
    ;
    assert(ranked[0] <= ranked[r95] <= ranked[r99] <= ranked[n - 1]);
    if n % 2 == 0 {
        assert(ranked[0] <= ranked[n / 2 - 1] <= ranked[n / 2] <= ranked[n - 1]);
    } else {
        assert(ranked[0] <= ranked[n / 2] <= ranked[n - 1]);
    }
}

/// A window has exactly one snapshot of statistics: computing them is a
/// function of the samples alone.
pub proof fn lemma_stats_unique(first: SampleStats, second: SampleStats, s: Seq<u32>)
    requires
        first.describes(s),
        second.describes(s),
    ensures
        first == second,
{
    if s.len() > 0 {
        let v = variance_of(s);
        let a = first.std_dev as int;
        let b = second.std_dev as int;
        assert(a == b) by (nonlinear_arith)
            requires
                0 <= a,
                0 <= b,
                a * a <= v < (a + 1) * (a + 1),
                b * b <= v < (b + 1) * (b + 1),
        ;
    }
}

/// The ranked fields (count, extremes, median and percentiles) depend
/// only on which samples a window holds and how often, not on their
/// order, nor on how ties are ranked.
pub proof fn lemma_ranked_fields_ignore_order(
    first: SampleStats,
    second: SampleStats,
    s: Seq<u32>,
    t: Seq<u32>,
)
    requires
        s.to_multiset() == t.to_multiset(),
        first.describes(s),
        second.describes(t),
    ensures
        first.count == second.count,
        first.min == second.min,
        first.max == second.max,
        first.median == second.median,
        first.p95 == second.p95,
        first.p99 == second.p99,
{
    lemma_ascending_ranks(s);
    lemma_ascending_ranks(t);
    s.to_multiset_ensures();
    t.to_multiset_ensures();
    lemma_sorted_unique(ascending(s), ascending(t), at_most());
}

} // verus!
