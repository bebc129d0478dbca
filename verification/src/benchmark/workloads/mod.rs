//! Workload definitions: what each workload spawns and what it does every
//! tick, as far as integers decide it.
//!
//! The engine never runs these itself; it only selects which pair of spawn
//! and process operations is active.

pub mod fragmentation;
pub mod iteration;
pub mod layout;
pub mod mutation;
pub mod registry;
pub mod structural;

pub use layout::{FragmentedStore, StorageClass, UnifiedStore};
pub use registry::{needs_spawn, BenchmarkSet, WorkloadSystem};
