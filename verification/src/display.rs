//! What a dashboard shows of the engine, as far as integers decide it:
//! when the graph may be redrawn, which band a tick time falls into, and
//! the summary of the rolling history.

use vstd::prelude::*;

use crate::metrics::frame_metrics::{is_greatest_of, is_least_of};
use crate::metrics::sample_stats::total;
use crate::state::BenchmarkPhase;

verus! {

/// How a tick time stands to the target.
#[derive(Debug, Clone, Copy, PartialEq, Eq, Hash, Structural)]
pub enum FrameTimeBand {
    /// Below 70 percent of the target.
    Comfortable,
    /// From 70 to below 90 percent of the target.
    Near,
    /// From 90 percent to below the target.
    Tight,
    /// At or above the target.
    Over,
}

/// How a bar of the history graph stands to the target.
#[derive(Debug, Clone, Copy, PartialEq, Eq, Hash, Structural)]
pub enum GraphBand {
    /// At most 80 percent of the target.
    Low,
    /// Above 80 percent of the target, at most the target.
    Near,
    /// Above the target, at most 120 percent of it.
    Over,
    /// Above 120 percent of the target.
    FarOver,
}

/// The band of a tick time of `frame_us` against `target_us`.
pub open spec fn band_of(frame_us: u32, target_us: u32) -> FrameTimeBand {
    if frame_us * 10 < target_us * 7 {
        FrameTimeBand::Comfortable
    } else if frame_us * 10 < target_us * 9 {
        FrameTimeBand::Near
    } else if frame_us < target_us {
        FrameTimeBand::Tight
    } else {
        FrameTimeBand::Over
    }
}

/// The band of a graph bar of `frame_us` against `target_us`.
pub open spec fn graph_band_of(frame_us: u32, target_us: u32) -> GraphBand {
    if frame_us * 10 > target_us * 12 {
        GraphBand::FarOver
    } else if frame_us > target_us {
        GraphBand::Over
    } else if frame_us * 10 > target_us * 8 {
        GraphBand::Near
    } else {
        GraphBand::Low
    }
}

/// The band of a tick time of `frame_us` against `target_us`.
pub fn frame_time_band(frame_us: u32, target_us: u32) -> (band: FrameTimeBand)
    ensures
        band == band_of(frame_us, target_us),
{
    let frame: u64 = frame_us as u64;
    let target: u64 = target_us as u64;
    if frame * 10 < target * 7 {
        FrameTimeBand::Comfortable
    } else if frame * 10 < target * 9 {
        FrameTimeBand::Near
    } else if frame < target {
        FrameTimeBand::Tight
    } else {
        FrameTimeBand::Over
    }
}

/// The band of a graph bar of `frame_us` against `target_us`.
pub fn graph_band(frame_us: u32, target_us: u32) -> (band: GraphBand)
    ensures
        band == graph_band_of(frame_us, target_us),
{
    let frame: u64 = frame_us as u64;
    let target: u64 = target_us as u64;
    if frame * 10 > target * 12 {
        GraphBand::FarOver
    } else if frame > target {
        GraphBand::Over
    } else if frame * 10 > target * 8 {
        GraphBand::Near
    } else {
        GraphBand::Low
    }
}

/// Whether the history graph may be redrawn in `phase`: not while the
/// engine warms up or samples, so that drawing cannot disturb a
/// measurement.
pub fn should_update_graph(phase: BenchmarkPhase) -> (allowed: bool)
    ensures
        allowed == (phase != BenchmarkPhase::WarmUp && phase != BenchmarkPhase::Sampling),
{
    !matches!(phase, BenchmarkPhase::WarmUp | BenchmarkPhase::Sampling)
}

/// The label of a phase, as a sequence of characters.
pub open spec fn phase_label_text(phase: BenchmarkPhase) -> Seq<char> {
    match phase {
        BenchmarkPhase::Idle => "Idle"@,
        BenchmarkPhase::WarmUp => "Warming up..."@,
        BenchmarkPhase::Sampling => "Sampling"@,
        BenchmarkPhase::Adjusting => "Adjusting"@,
        BenchmarkPhase::Complete => "Complete!"@,
    }
}

/// The label under which a phase is shown.
pub fn phase_label(phase: BenchmarkPhase) -> (label: &'static str)
    ensures
        label@ == phase_label_text(phase),
{
    match phase {
        BenchmarkPhase::Idle => "Idle",
        BenchmarkPhase::WarmUp => "Warming up...",
        BenchmarkPhase::Sampling => "Sampling",
        BenchmarkPhase::Adjusting => "Adjusting",
        BenchmarkPhase::Complete => "Complete!",
    }
}

/// Number of tick times in `s` above `target_us`.
pub open spec fn count_over(s: Seq<u32>, target_us: u32) -> nat
    decreases s.len(),
{
    if s.len() == 0 {
        0
    } else {
        count_over(s.drop_last(), target_us) + if s.last() > target_us {
            1nat
        } else {
            0nat
        }
    }
}

/// Summary of the tick times on display, in microseconds.
#[derive(Debug, Clone, Copy, PartialEq, Eq, Structural)]
pub struct GraphStats {
    pub min: u32,
    pub max: u32,
    /// Average, rounded down.
    pub avg: u32,
    /// Number of tick times above the target.
    pub over_target: usize,
    /// Number of tick times.
    pub count: usize,
}

impl GraphStats {
    /// The summary of no tick times: every field zero.
    pub open spec fn zero() -> GraphStats {
        GraphStats { min: 0, max: 0, avg: 0, over_target: 0, count: 0 }
    }

    /// Whether this is the summary of `s` against `target_us`.
    pub open spec fn summarizes(self, s: Seq<u32>, target_us: u32) -> bool {
        if s.len() == 0 {
            self == Self::zero()
        } else {
            &&& self.count == s.len()
            &&& is_least_of(self.min, s)
            &&& is_greatest_of(self.max, s)
            &&& self.avg == total(s) / (s.len() as int)
            &&& self.over_target == count_over(s, target_us)
        }
    }

    /// Share of the tick times above the target, in tenths of a percent,
    /// rounded down; zero without tick times.
    pub fn over_target_permille(&self) -> (share: u32)
        requires
            self.over_target <= self.count,
        ensures
            self.count == 0 ==> share == 0,
            self.count > 0 ==> share == self.over_target * 1000 / (self.count as int),
    {
        if self.count == 0 {
            return 0;
        }
        assert(self.over_target * 1000 / (self.count as int) <= 1000 && self.over_target * 1000
            <= 0xFFFF_FFFF_FFFF_FFFF * 1000) by (nonlinear_arith)
            requires
                0 <= self.over_target <= self.count,
                0 < self.count <= 0xFFFF_FFFF_FFFF_FFFF,
        ;
        ((self.over_target as u128) * 1000 / (self.count as u128)) as u32
    }
}

/// Summarizes the tick times on display against `target_us`.
pub fn calculate_graph_stats(frame_times: &Vec<u32>, target_us: u32) -> (stats: GraphStats)
    ensures
        stats.summarizes(frame_times@, target_us),
        stats.over_target <= stats.count,
{
    let n: usize = frame_times.len();
    if n == 0 {
        return GraphStats { min: 0, max: 0, avg: 0, over_target: 0, count: 0 };
    }
    let mut min: u32 = frame_times[0];
    let mut max: u32 = frame_times[0];
    let mut sum: u128 = 0;
    let mut over: usize = 0;
    let mut i: usize = 0;
    while i < n
        invariant
            n == frame_times@.len(),
            n > 0,
            i <= n,
            sum == total(frame_times@.take(i as int)),
            sum <= i * 0xFFFF_FFFF,
            over == count_over(frame_times@.take(i as int), target_us),
            over <= i,
            i == 0 ==> min == frame_times@[0] && max == frame_times@[0],
            i > 0 ==> is_least_of(min, frame_times@.take(i as int)) && is_greatest_of(
                max,
                frame_times@.take(i as int),
            ),
        decreases n - i,
    {
        let t: u32 = frame_times[i];
        let ghost before = frame_times@.take(i as int);
        let ghost after = frame_times@.take(i + 1);
        assert(after.drop_last() == before);
        assert(after[i as int] == t);
        assert forall|v: u32| before.contains(v) implies after.contains(v) by {
            let k = choose|k: int| 0 <= k < before.len() && before[k] == v;
            assert(after[k] == v);
        }
        if t < min {
            min = t;
        }
        if t > max {
            max = t;
        }
        if t > target_us {
            over = over + 1;
        }
        sum = sum + t as u128;
        i += 1;
    }
    assert(frame_times@.take(n as int) == frame_times@);
    assert(sum / (n as u128) <= 0xFFFF_FFFF) by (nonlinear_arith)
        requires
            n > 0,
            0 <= sum <= n * 0xFFFF_FFFF,
    ;
    GraphStats { min, max, avg: (sum / (n as u128)) as u32, over_target: over, count: n }
}

} // verus!
