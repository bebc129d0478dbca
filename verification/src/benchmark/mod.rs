//! Core benchmarking logic: the convergence search, the phase machine,
//! results and workloads.

pub mod convergence;
pub mod results;
pub mod runner;
pub mod search_laws;
pub mod workloads;

pub use convergence::Adjustment;
pub use results::{
    BenchmarkReport, BenchmarkResults, FrameTimeStats, SaveError, SystemInfo, WorkloadResult,
};
pub use runner::{
    reset_benchmark, start_benchmark, stop_benchmark, tick, BenchmarkComplete, BenchmarkEngine,
    DespawnAllRequest, Requests, SaveResultsRequest, SpawnEntitiesRequest,
};
