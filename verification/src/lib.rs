//! Adaptive breakdown-point benchmark engine for entity-component workloads.
//!
//! The engine searches for the largest entity population a workload can
//! sustain within a per-tick time budget.  Durations are whole microseconds
//! and entity counts are `usize`.  Contracts are stated over mathematical
//! models of the data and proved with Verus; the few calls into other
//! crates stand behind small trusted functions that say what is assumed of
//! them.
//!
//! - [`config`]: tuning constants
//! - [`control`]: commands and keyboard input
//! - [`display`]: what a dashboard shows, as far as integers decide it
//! - [`metrics`]: sample statistics and rolling frame metrics
//! - [`state`]: phases, workload identities and the search state
//! - [`benchmark`]: convergence, the phase machine, results and workloads
//! - [`components`]: integer components shared by the workloads

pub mod benchmark;
pub mod components;
pub mod config;
pub mod control;
pub mod display;
pub mod metrics;
pub mod state;
