//! Rolling tick-time history and the sample buffer of the current
//! measurement window.

use std::collections::VecDeque;
use vstd::prelude::*;

use crate::config::{FRAME_HISTORY_LENGTH, SAMPLE_FRAMES};
use crate::metrics::sample_stats::{stats_of, total, SampleStats};

verus! {

/// Entities processed per second when `count` entities take `duration_us`
/// microseconds: the quotient rounded down, held to `u64::MAX`.  A zero
/// duration is an unmeasurably short tick and yields `u64::MAX` as well.
pub open spec fn rate_per_second(count: int, duration_us: int) -> int {
    if duration_us <= 0 {
        u64::MAX as int
    } else if count * 1_000_000 / duration_us > u64::MAX {
        u64::MAX as int
    } else {
        count * 1_000_000 / duration_us
    }
}

/// Entities processed per second when `count` entities take `duration_us`
/// microseconds.
pub fn entities_per_second(count: usize, duration_us: u32) -> (rate: u64)
    ensures
        rate == rate_per_second(count as int, duration_us as int),
{
    if duration_us == 0 {
        return u64::MAX;
    }
    assert(count * 1_000_000 <= 0xFFFF_FFFF_FFFF_FFFF * 1_000_000) by (nonlinear_arith)
        requires
            0 <= count <= 0xFFFF_FFFF_FFFF_FFFF,
    ;
    let exact: u128 = (count as u128) * 1_000_000 / (duration_us as u128);
    if exact > u64::MAX as u128 {
        u64::MAX
    } else {
        exact as u64
    }
}

/// `value` occurs in `s` and no element of `s` is below it.
pub open spec fn is_least_of(value: u32, s: Seq<u32>) -> bool {
    s.contains(value) && forall|i: int| 0 <= i < s.len() ==> value <= #[trigger] s[i]
}

/// `value` occurs in `s` and no element of `s` is above it.
pub open spec fn is_greatest_of(value: u32, s: Seq<u32>) -> bool {
    s.contains(value) && forall|i: int| 0 <= i < s.len() ==> #[trigger] s[i] <= value
}

/// Tick-time metrics: a rolling history for display and the samples of the
/// current measurement window.  Durations are microseconds.
#[derive(Debug, Clone, PartialEq, Eq)]
pub struct FrameMetrics {
    /// Rolling history of tick times, oldest first.
    pub frame_times: VecDeque<u32>,
    /// Duration of the latest tick.
    pub current_frame_time: u32,
    /// Samples of the current measurement window, in arrival order.
    pub samples: Vec<u32>,
    /// Throughput of the latest tick, in entities per second.
    pub throughput: u64,
}

/// Mathematical model of [`FrameMetrics`].
pub ghost struct FrameMetricsView {
    pub frame_times: Seq<u32>,
    pub current_frame_time: u32,
    pub samples: Seq<u32>,
    pub throughput: u64,
}

impl FrameMetricsView {
    /// Metrics with no history and no samples.
    pub open spec fn empty() -> FrameMetricsView {
        FrameMetricsView {
            frame_times: Seq::empty(),
            current_frame_time: 0,
            samples: Seq::empty(),
            throughput: 0,
        }
    }

    /// The history holds at most `FRAME_HISTORY_LENGTH` ticks and the sample
    /// buffer at most one window of `SAMPLE_FRAMES` samples.
    pub open spec fn wf(self) -> bool {
        &&& self.frame_times.len() <= FRAME_HISTORY_LENGTH
        &&& self.samples.len() <= SAMPLE_FRAMES
    }

    /// The history after a tick of `delta_us`: the oldest entry leaves once
    /// the history is full.
    pub open spec fn history_after(self, delta_us: u32) -> Seq<u32> {
        if self.frame_times.len() >= FRAME_HISTORY_LENGTH {
            self.frame_times.drop_first().push(delta_us)
        } else {
            self.frame_times.push(delta_us)
        }
    }

    /// The metrics after a tick of `delta_us` with `entity_count` live
    /// entities.  A tick of zero duration leaves the throughput as it was.
    pub open spec fn recorded(self, delta_us: u32, entity_count: usize) -> FrameMetricsView {
        FrameMetricsView {
            frame_times: self.history_after(delta_us),
            current_frame_time: delta_us,
            samples: self.samples,
            throughput: if delta_us > 0 {
                rate_per_second(entity_count as int, delta_us as int) as u64
            } else {
                self.throughput
            },
        }
    }

    /// The metrics after `delta_us` was offered as a sample: a full window
    /// takes no further sample.
    pub open spec fn sampled(self, delta_us: u32) -> FrameMetricsView {
        if self.samples.len() < SAMPLE_FRAMES {
            FrameMetricsView { samples: self.samples.push(delta_us), ..self }
        } else {
            self
        }
    }

    /// The metrics with the sample buffer emptied.
    pub open spec fn without_samples(self) -> FrameMetricsView {
        FrameMetricsView { samples: Seq::empty(), ..self }
    }

    /// Average of the history, rounded down; zero for an empty history.
    pub open spec fn average(self) -> int {
        if self.frame_times.len() == 0 {
            0
        } else {
            total(self.frame_times) / (self.frame_times.len() as int)
        }
    }
}

impl View for FrameMetrics {
    type V = FrameMetricsView;

    open spec fn view(&self) -> FrameMetricsView {
        FrameMetricsView {
            frame_times: self.frame_times@,
            current_frame_time: self.current_frame_time,
            samples: self.samples@,
            throughput: self.throughput,
        }
    }
}

impl Default for FrameMetrics {
    fn default() -> (metrics: FrameMetrics)
        ensures
            metrics@ == FrameMetricsView::empty(),
    {
        FrameMetrics {
            frame_times: VecDeque::with_capacity(FRAME_HISTORY_LENGTH),
            current_frame_time: 0,
            samples: Vec::with_capacity(SAMPLE_FRAMES),
            throughput: 0,
        }
    }
}

impl FrameMetrics {
    /// Records a tick of `delta_us` microseconds with `entity_count` live
    /// entities.
    pub fn record_frame(&mut self, delta_us: u32, entity_count: usize)
        ensures
            final(self)@ == old(self)@.recorded(delta_us, entity_count),
            old(self)@.wf() ==> final(self)@.wf(),
    {
        self.current_frame_time = delta_us;
        if self.frame_times.len() >= FRAME_HISTORY_LENGTH {
            let _ = self.frame_times.pop_front();
            assert(self.frame_times@ == old(self).frame_times@.drop_first());
        }
        self.frame_times.push_back(delta_us);
        if delta_us > 0 {
            self.throughput = entities_per_second(entity_count, delta_us);
        }
    }

    /// Offers `delta_us` as a sample of the current measurement window.
    pub fn add_sample(&mut self, delta_us: u32)
        ensures
            final(self)@ == old(self)@.sampled(delta_us),
            old(self)@.wf() ==> final(self)@.wf(),
    {
        if self.samples.len() < SAMPLE_FRAMES {
            self.samples.push(delta_us);
        }
    }

    /// Empties the sample buffer.
    pub fn clear_samples(&mut self)
        ensures
            final(self)@ == old(self)@.without_samples(),
    {
        self.samples.clear();
    }

    /// Statistics of the samples collected so far.
    pub fn sample_stats(&self) -> (stats: SampleStats)
        ensures
            stats.describes(self@.samples),
            stats == stats_of(self@.samples),
            stats.count == self@.samples.len(),
    {
        SampleStats::from_samples(&self.samples)
    }

    /// Average tick time of the history, rounded down; zero when the
    /// history is empty.
    pub fn average_frame_time(&self) -> (average: u32)
        ensures
            average == self@.average(),
    {
        let n: usize = self.frame_times.len();
        if n == 0 {
            return 0;
        }
        let mut sum: u128 = 0;
        let mut i: usize = 0;
        while i < n
            invariant
                n == self.frame_times@.len(),
                i <= n,
                sum == total(self.frame_times@.take(i as int)),
                sum <= i * 0xFFFF_FFFF,
            decreases n - i,
        {
            assert(self.frame_times@.take(i + 1).drop_last() == self.frame_times@.take(i as int));
            sum = sum + self.frame_times[i] as u128;
            i += 1;
        }
        assert(self.frame_times@.take(n as int) == self.frame_times@);
        assert(sum / (n as u128) <= 0xFFFF_FFFF) by (nonlinear_arith)
            requires
                n > 0,
                0 <= sum <= n * 0xFFFF_FFFF,
        ;
        (sum / (n as u128)) as u32
    }

    /// Shortest and longest tick time of the history.  An empty history
    /// yields `(u32::MAX, 0)`.
    pub fn frame_time_range(&self) -> (range: (u32, u32))
        ensures
            self@.frame_times.len() == 0 ==> range == (u32::MAX, 0u32),
            self@.frame_times.len() > 0 ==> is_least_of(range.0, self@.frame_times)
                && is_greatest_of(range.1, self@.frame_times),
    {
        let n: usize = self.frame_times.len();
        let mut low: u32 = u32::MAX;
        let mut high: u32 = 0;
        let mut i: usize = 0;
        while i < n
            invariant
                n == self.frame_times@.len(),
                i <= n,
                i == 0 ==> low == u32::MAX && high == 0,
                i > 0 ==> is_least_of(low, self.frame_times@.take(i as int)) && is_greatest_of(
                    high,
                    self.frame_times@.take(i as int),
                ),
            decreases n - i,
        {
            let t: u32 = self.frame_times[i];
            let ghost before = self.frame_times@.take(i as int);
            let ghost after = self.frame_times@.take(i + 1);
            assert(after == before.push(t));
            assert(after[i as int] == t);
            assert forall|v: u32| before.contains(v) implies after.contains(v) by {
                let k = choose|k: int| 0 <= k < before.len() && before[k] == v;
                assert(after[k] == v);
            }
            if t < low {
                low = t;
            }
            if t > high {
                high = t;
            }
            i += 1;
        }
        assert(self.frame_times@.take(n as int) == self.frame_times@);
        (low, high)
    }

    /// Whether the average tick time of the history is above `target_us`.
    pub fn exceeds_target(&self, target_us: u32) -> (over: bool)
        ensures
            over == (self@.average() > target_us),
    {
        self.average_frame_time() > target_us
    }

    /// The rolling history, oldest tick first.
    pub fn frame_times_slice(&self) -> (history: &VecDeque<u32>)
        ensures
            history@ == self@.frame_times,
    {
        &self.frame_times
    }

    /// Forgets the history, the samples and the throughput.
    pub fn reset(&mut self)
        ensures
            final(self)@ == FrameMetricsView::empty(),
    {
        self.frame_times.clear();
        self.current_frame_time = 0;
        self.samples.clear();
        self.throughput = 0;
    }
}

} // verus!
