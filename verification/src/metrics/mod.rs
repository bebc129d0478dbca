//! Performance measurement: sample statistics and rolling frame metrics.

pub mod frame_metrics;
pub mod sample_stats;

pub use frame_metrics::{entities_per_second, FrameMetrics, FrameMetricsView};
pub use sample_stats::SampleStats;
