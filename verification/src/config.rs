//! Tuning constants of the benchmark engine.
//!
//! Durations are whole microseconds.

use vstd::prelude::*;

verus! {

/// Target tick time in microseconds (60 ticks per second).
pub const TARGET_FRAME_TIME_US: u32 = 16_666;

/// Alternative target tick time in microseconds (30 ticks per second).
pub const TARGET_FRAME_TIME_30FPS_US: u32 = 33_333;

/// Number of warm-up ticks that precede each sampling window.
pub const WARMUP_FRAMES: usize = 60;

/// Number of ticks sampled for each measurement.
pub const SAMPLE_FRAMES: usize = 120;

/// Entity count of the first probe.
pub const INITIAL_ENTITY_COUNT: usize = 10_000;

/// Smallest entity count the search may propose.
pub const MIN_ENTITY_COUNT: usize = 100;

/// Largest entity count the search may propose; also the sentinel for a
/// ceiling that no probe has constrained yet.
pub const MAX_ENTITY_COUNT: usize = usize::MAX / 2;

/// Factor by which the entity count grows while no probe has failed.
pub const GROWTH_MULTIPLIER: usize = 2;

/// Step of a manual entity-count adjustment.
pub const MANUAL_STEP_SIZE: usize = 1_000;

/// Step of a large manual entity-count adjustment.
pub const MANUAL_STEP_SIZE_LARGE: usize = 10_000;

/// Absolute gap between the search bounds below which the search stops.
pub const MIN_CONVERGENCE_GAP: usize = 100;

/// Relative gap, in percent of the entity count, below which the search stops.
pub const CONVERGENCE_PERCENT: usize = 2;

/// Number of tick times kept in the rolling history.
pub const FRAME_HISTORY_LENGTH: usize = 300;

/// Microseconds in one second.
pub const MICROS_PER_SECOND: u64 = 1_000_000;

} // verus!
