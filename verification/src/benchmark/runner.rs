//! The phase machine: warm-up, sampling, adjustment and completion, and
//! the commands that start, stop and reset a run.
//!
//! The engine owns all benchmark state.  Every operation returns the
//! requests it leaves for the entity substrate; a despawn request is always
//! to be served before a spawn request of the same call.

use vstd::prelude::*;

use crate::benchmark::convergence::Adjustment;
use crate::benchmark::results::{
    BenchmarkResults, BenchmarkResultsView, SystemInfo, SystemInfoView, WorkloadResultView,
};
use crate::config::{INITIAL_ENTITY_COUNT, SAMPLE_FRAMES, TARGET_FRAME_TIME_US, WARMUP_FRAMES};
use crate::metrics::frame_metrics::{
    entities_per_second, rate_per_second, FrameMetrics, FrameMetricsView,
};
use crate::metrics::sample_stats::stats_of;
use crate::state::{AppState, BenchmarkPhase, BenchmarkState, SelectedWorkload, WORKLOAD_COUNT};

verus! {

/// Asks the substrate to spawn `count` entities of the active workload.
#[derive(Debug, Clone, Copy, PartialEq, Eq)]
pub struct SpawnEntitiesRequest {
    pub count: usize,
}

/// Asks the substrate to despawn every benchmark entity.
#[derive(Debug, Clone, Copy, PartialEq, Eq)]
pub struct DespawnAllRequest;

/// Asks for the active report to be persisted.
#[derive(Debug, Clone, Copy, PartialEq, Eq)]
pub struct SaveResultsRequest;

/// Tells that the breakdown point of a workload was found.
#[derive(Debug, Clone, Copy, PartialEq, Eq)]
pub struct BenchmarkComplete {
    pub workload: SelectedWorkload,
    pub breakdown_point: usize,
    /// Entities per second at the breakdown point.
    pub throughput: u64,
}

/// What one engine operation asks of its collaborators.
///
/// The despawn request is served before the spawn request.
#[derive(Debug, Clone, Copy, PartialEq, Eq)]
pub struct Requests {
    pub despawn: Option<DespawnAllRequest>,
    pub spawn: Option<SpawnEntitiesRequest>,
    pub complete: Option<BenchmarkComplete>,
    pub save: Option<SaveResultsRequest>,
    /// Whether the application is asked to quit.
    pub exit: bool,
}

impl Requests {
    /// No request at all.
    pub open spec fn nothing() -> Requests {
        Requests { despawn: None, spawn: None, complete: None, save: None, exit: false }
    }

    /// A request to despawn every entity.
    pub open spec fn despawn_all() -> Requests {
        Requests { despawn: Some(DespawnAllRequest), ..Requests::nothing() }
    }

    /// A request to spawn `count` entities.
    pub open spec fn spawn_only(count: usize) -> Requests {
        Requests { spawn: Some(SpawnEntitiesRequest { count }), ..Requests::nothing() }
    }

    /// A request to despawn every entity and then spawn `count`.
    pub open spec fn respawn(count: usize) -> Requests {
        Requests {
            despawn: Some(DespawnAllRequest),
            spawn: Some(SpawnEntitiesRequest { count }),
            ..Requests::nothing()
        }
    }

    /// These requests followed by `later`: of two requests of a kind the
    /// later one stands, and a despawn of either is kept.
    pub open spec fn before(self, later: Requests) -> Requests {
        Requests {
            despawn: if later.despawn.is_some() {
                later.despawn
            } else {
                self.despawn
            },
            spawn: if later.spawn.is_some() {
                later.spawn
            } else {
                self.spawn
            },
            complete: if later.complete.is_some() {
                later.complete
            } else {
                self.complete
            },
            save: if later.save.is_some() {
                later.save
            } else {
                self.save
            },
            exit: self.exit || later.exit,
        }
    }

    /// No request at all.
    pub fn none() -> (requests: Requests)
        ensures
            requests == Requests::nothing(),
    {
        Requests { despawn: None, spawn: None, complete: None, save: None, exit: false }
    }

    /// These requests followed by `later`.
    pub fn followed_by(self, later: Requests) -> (merged: Requests)
        ensures
            merged == self.before(later),
    {
        Requests {
            despawn: if later.despawn.is_some() {
                later.despawn
            } else {
                self.despawn
            },
            spawn: if later.spawn.is_some() {
                later.spawn
            } else {
                self.spawn
            },
            complete: if later.complete.is_some() {
                later.complete
            } else {
                self.complete
            },
            save: if later.save.is_some() {
                later.save
            } else {
                self.save
            },
            exit: self.exit || later.exit,
        }
    }
}

/// The benchmark engine: the phase machine with everything it owns.
#[derive(Debug, PartialEq, Eq)]
pub struct BenchmarkEngine {
    pub app_state: AppState,
    pub phase: BenchmarkPhase,
    /// The active workload.
    pub workload: SelectedWorkload,
    pub state: BenchmarkState,
    pub metrics: FrameMetrics,
    pub results: BenchmarkResults,
    /// The machine the engine runs on, copied into every new report.
    pub system_info: SystemInfo,
}

/// Mathematical model of a [`BenchmarkEngine`].
pub ghost struct EngineView {
    pub app_state: AppState,
    pub phase: BenchmarkPhase,
    pub workload: SelectedWorkload,
    pub state: BenchmarkState,
    pub metrics: FrameMetricsView,
    pub results: BenchmarkResultsView,
    pub system_info: SystemInfoView,
}

impl View for BenchmarkEngine {
    type V = EngineView;

    open spec fn view(&self) -> EngineView {
        EngineView {
            app_state: self.app_state,
            phase: self.phase,
            workload: self.workload,
            state: self.state,
            metrics: self.metrics@,
            results: self.results@,
            system_info: self.system_info@,
        }
    }
}

impl EngineView {
    /// The engine before any command.
    pub open spec fn initial(system_info: SystemInfoView) -> EngineView {
        EngineView {
            app_state: AppState::Menu,
            phase: BenchmarkPhase::Idle,
            workload: SelectedWorkload::SimpleIteration,
            state: BenchmarkState::initial(),
            metrics: FrameMetricsView::empty(),
            results: BenchmarkResultsView::empty(),
            system_info,
        }
    }

    /// The invariant of the engine: the search bounds are ordered, the
    /// buffers are within their limits, the tick counter is below the
    /// length of the running phase, and a running suite has a workload
    /// left.
    pub open spec fn wf(self) -> bool {
        &&& self.state.bounds_ordered()
        &&& self.metrics.wf()
        &&& self.phase == BenchmarkPhase::WarmUp ==> self.state.frame_counter < WARMUP_FRAMES
        &&& self.phase == BenchmarkPhase::Sampling ==> self.state.frame_counter < SAMPLE_FRAMES
        &&& self.state.automated ==> self.state.suite_index < WORKLOAD_COUNT
    }

    /// The engine on entry to `phase`: warm-up restarts the tick counter,
    /// sampling also empties the sample buffer.
    pub open spec fn entered(self, phase: BenchmarkPhase) -> EngineView {
        match phase {
            BenchmarkPhase::WarmUp => EngineView {
                phase,
                state: BenchmarkState { frame_counter: 0, ..self.state },
                ..self
            },
            BenchmarkPhase::Sampling => EngineView {
                phase,
                state: BenchmarkState { frame_counter: 0, ..self.state },
                metrics: self.metrics.without_samples(),
                ..self
            },
            _ => EngineView { phase, ..self },
        }
    }

    /// The engine after a start command: search and metrics start over and
    /// the first probe warms up.
    pub open spec fn started(self) -> (EngineView, Requests) {
        (
            EngineView {
                app_state: AppState::Running,
                state: self.state.restarted(),
                metrics: FrameMetricsView::empty(),
                ..self
            }.entered(BenchmarkPhase::WarmUp),
            Requests::spawn_only(INITIAL_ENTITY_COUNT),
        )
    }

    /// The engine after a stop command: the samples of an interrupted
    /// window are discarded and the machine idles.
    pub open spec fn stopped(self) -> (EngineView, Requests) {
        (
            EngineView {
                app_state: AppState::Paused,
                phase: BenchmarkPhase::Idle,
                metrics: self.metrics.without_samples(),
                ..self
            },
            Requests::despawn_all(),
        )
    }

    /// The engine after a reset command: as after a stop, and search and
    /// metrics start over.
    pub open spec fn reset(self) -> (EngineView, Requests) {
        (
            EngineView {
                app_state: AppState::Menu,
                phase: BenchmarkPhase::Idle,
                state: self.state.restarted(),
                metrics: FrameMetricsView::empty(),
                ..self
            },
            Requests::despawn_all(),
        )
    }

    /// The engine after a tick of warm-up.
    pub open spec fn warmed(self) -> EngineView {
        if self.state.frame_counter + 1 >= WARMUP_FRAMES {
            self.entered(BenchmarkPhase::Sampling)
        } else {
            EngineView {
                state: BenchmarkState {
                    frame_counter: (self.state.frame_counter + 1) as usize,
                    ..self.state
                },
                ..self
            }
        }
    }

    /// The engine after a tick of sampling that took `delta_us`.
    pub open spec fn sampled(self, delta_us: u32) -> EngineView {
        let metrics = self.metrics.sampled(delta_us);
        if self.state.frame_counter + 1 >= SAMPLE_FRAMES {
            EngineView {
                phase: BenchmarkPhase::Adjusting,
                state: BenchmarkState { frame_counter: 0, ..self.state },
                metrics,
                ..self
            }
        } else {
            EngineView {
                state: BenchmarkState {
                    frame_counter: (self.state.frame_counter + 1) as usize,
                    ..self.state
                },
                metrics,
                ..self
            }
        }
    }

    /// The engine after the adjustment that follows a sampling window.
    ///
    /// A window without samples is no measurement: the engine warms up and
    /// samples again.  Otherwise the median of the window is held against
    /// the target and the search decides: on convergence the result is
    /// recorded and announced, else every entity is despawned and the next
    /// probe is spawned and warms up.
    pub open spec fn adjusted(self) -> (EngineView, Requests) {
        let stats = stats_of(self.metrics.samples);
        let exceeds = stats.median > TARGET_FRAME_TIME_US;
        if stats.count == 0 {
            (self.entered(BenchmarkPhase::WarmUp), Requests::nothing())
        } else {
            match self.state.adjustment(exceeds) {
                Adjustment::Converged { breakdown_point } => {
                    let throughput = rate_per_second(
                        breakdown_point as int,
                        stats.median as int,
                    ) as u64;
                    (
                        EngineView {
                            phase: BenchmarkPhase::Complete,
                            state: self.state.adjusted(exceeds),
                            results: self.results.recorded(
                                WorkloadResultView::of(
                                    self.workload,
                                    breakdown_point,
                                    throughput,
                                    stats,
                                ),
                            ),
                            ..self
                        },
                        Requests {
                            complete: Some(
                                BenchmarkComplete {
                                    workload: self.workload,
                                    breakdown_point,
                                    throughput,
                                },
                            ),
                            ..Requests::nothing()
                        },
                    )
                },
                Adjustment::Probe { entity_count } => (
                    EngineView { state: self.state.adjusted(exceeds), ..self }.entered(
                        BenchmarkPhase::WarmUp,
                    ),
                    Requests::respawn(entity_count),
                ),
            }
        }
    }

    /// The engine after a workload of a suite has completed: the suite
    /// moves to the next registered workload and starts its search, or,
    /// past the last one, ends and shows its results.  Outside a suite
    /// nothing changes.
    pub open spec fn suite_advanced(self) -> (EngineView, Requests) {
        if !self.state.automated {
            (self, Requests::nothing())
        } else if self.state.suite_index + 1 < WORKLOAD_COUNT {
            (
                EngineView {
                    workload: SelectedWorkload::registry()[self.state.suite_index + 1],
                    state: BenchmarkState {
                        suite_index: (self.state.suite_index + 1) as usize,
                        ..self.state.restarted()
                    },
                    metrics: FrameMetricsView::empty(),
                    ..self
                }.entered(BenchmarkPhase::WarmUp),
                Requests::respawn(INITIAL_ENTITY_COUNT),
            )
        } else {
            (
                EngineView {
                    app_state: AppState::Results,
                    phase: BenchmarkPhase::Complete,
                    state: BenchmarkState {
                        automated: false,
                        suite_index: (self.state.suite_index + 1) as usize,
                        ..self.state
                    },
                    ..self
                },
                Requests::nothing(),
            )
        }
    }

    /// The engine after one tick that took `delta_us`.
    ///
    /// Only a running engine moves.  A tick of warm-up or sampling counts;
    /// a tick of adjustment decides, and a completion in a suite moves the
    /// suite on within the same tick.
    pub open spec fn ticked(self, delta_us: u32) -> (EngineView, Requests) {
        if self.app_state != AppState::Running {
            (self, Requests::nothing())
        } else {
            match self.phase {
                BenchmarkPhase::WarmUp => (self.warmed(), Requests::nothing()),
                BenchmarkPhase::Sampling => (self.sampled(delta_us), Requests::nothing()),
                BenchmarkPhase::Adjusting => {
                    let (engine, requests) = self.adjusted();
                    if requests.complete.is_some() {
                        let (advanced, more) = engine.suite_advanced();
                        (advanced, requests.before(more))
                    } else {
                        (engine, requests)
                    }
                },
                _ => (self, Requests::nothing()),
            }
        }
    }
}

impl BenchmarkEngine {
    /// An idle engine on the machine described by `system_info`.
    pub fn new(system_info: SystemInfo) -> (engine: BenchmarkEngine)
        ensures
            engine@ == EngineView::initial(system_info@),
            engine@.wf(),
    {
        BenchmarkEngine {
            app_state: AppState::Menu,
            phase: BenchmarkPhase::Idle,
            workload: SelectedWorkload::SimpleIteration,
            state: BenchmarkState::default(),
            metrics: FrameMetrics::default(),
            results: BenchmarkResults::default(),
            system_info,
        }
    }

    /// Whether the invariant of the engine holds.
    pub fn is_well_formed(&self) -> (ok: bool)
        ensures
            ok == self@.wf(),
    {
        self.state.has_ordered_bounds() && self.metrics.frame_times.len()
            <= crate::config::FRAME_HISTORY_LENGTH && self.metrics.samples.len() <= SAMPLE_FRAMES
            && (!matches!(self.phase, BenchmarkPhase::WarmUp) || self.state.frame_counter
            < WARMUP_FRAMES) && (!matches!(self.phase, BenchmarkPhase::Sampling)
            || self.state.frame_counter < SAMPLE_FRAMES) && (!self.state.automated
            || self.state.suite_index < WORKLOAD_COUNT)
    }
}

/// Enters `phase` and performs its entry actions.
pub fn handle_phase_transitions(engine: &mut BenchmarkEngine, phase: BenchmarkPhase)
    ensures
        final(engine)@ == old(engine)@.entered(phase),
{
    match phase {
        BenchmarkPhase::WarmUp => {
            engine.state.frame_counter = 0;
        },
        BenchmarkPhase::Sampling => {
            engine.metrics.clear_samples();
            engine.state.frame_counter = 0;
        },
        _ => {},
    }
    engine.phase = phase;
}

/// Counts one tick of warm-up and moves on to sampling after
/// `WARMUP_FRAMES` ticks.
pub fn manage_benchmark_phase(engine: &mut BenchmarkEngine)
    requires
        old(engine)@.wf(),
        old(engine)@.phase == BenchmarkPhase::WarmUp,
    ensures
        final(engine)@ == old(engine)@.warmed(),
        final(engine)@.wf(),
{
    engine.state.frame_counter = engine.state.frame_counter + 1;
    if engine.state.frame_counter >= WARMUP_FRAMES {
        handle_phase_transitions(engine, BenchmarkPhase::Sampling);
    }
}

/// Takes the duration of one tick as a sample and moves on to adjustment
/// after `SAMPLE_FRAMES` ticks.
pub fn collect_samples(engine: &mut BenchmarkEngine, delta_us: u32)
    requires
        old(engine)@.wf(),
        old(engine)@.phase == BenchmarkPhase::Sampling,
    ensures
        final(engine)@ == old(engine)@.sampled(delta_us),
        final(engine)@.wf(),
{
    engine.metrics.add_sample(delta_us);
    engine.state.frame_counter = engine.state.frame_counter + 1;
    if engine.state.frame_counter >= SAMPLE_FRAMES {
        engine.state.frame_counter = 0;
        handle_phase_transitions(engine, BenchmarkPhase::Adjusting);
    }
}

/// Decides how the search goes on after a sampling window.
pub fn adjust_entity_count(engine: &mut BenchmarkEngine) -> (requests: Requests)
    requires
        old(engine)@.wf(),
    ensures
        (final(engine)@, requests) == old(engine)@.adjusted(),
        final(engine)@.state.bounds_ordered(),
        final(engine)@.metrics.wf(),
        final(engine)@.state.automated == old(engine)@.state.automated,
        final(engine)@.state.suite_index == old(engine)@.state.suite_index,
        final(engine)@.phase == BenchmarkPhase::WarmUp ==> final(engine)@.state.frame_counter == 0,
        final(engine)@.phase != BenchmarkPhase::Sampling,
{
    let stats = engine.metrics.sample_stats();
    if stats.count == 0 {
        handle_phase_transitions(engine, BenchmarkPhase::WarmUp);
        return Requests::none();
    }
    let exceeds: bool = stats.median_exceeds(TARGET_FRAME_TIME_US);
    match engine.state.adjust(exceeds) {
        Adjustment::Converged { breakdown_point } => {
            let throughput: u64 = entities_per_second(breakdown_point, stats.median);
            engine.results.record_workload_result(
                engine.workload,
                breakdown_point,
                throughput,
                stats,
            );
            handle_phase_transitions(engine, BenchmarkPhase::Complete);
            Requests {
                despawn: None,
                spawn: None,
                complete: Some(
                    BenchmarkComplete { workload: engine.workload, breakdown_point, throughput },
                ),
                save: None,
                exit: false,
            }
        },
        Adjustment::Probe { entity_count } => {
            handle_phase_transitions(engine, BenchmarkPhase::WarmUp);
            Requests {
                despawn: Some(DespawnAllRequest),
                spawn: Some(SpawnEntitiesRequest { count: entity_count }),
                complete: None,
                save: None,
                exit: false,
            }
        },
    }
}

/// Moves a suite on after one of its workloads has completed.
pub fn handle_benchmark_complete(engine: &mut BenchmarkEngine) -> (requests: Requests)
    requires
        old(engine)@.state.automated ==> old(engine)@.state.suite_index < WORKLOAD_COUNT,
    ensures
        (final(engine)@, requests) == old(engine)@.suite_advanced(),
        old(engine)@.state.bounds_ordered() && old(engine)@.metrics.wf()
            && old(engine)@.phase == BenchmarkPhase::Complete ==> final(engine)@.wf(),
{
    if !engine.state.automated {
        return Requests::none();
    }
    engine.state.suite_index = engine.state.suite_index + 1;
    match SelectedWorkload::at(engine.state.suite_index) {
        Some(next) => {
            engine.workload = next;
            engine.state.reset_for_new_workload();
            engine.metrics.reset();
            handle_phase_transitions(engine, BenchmarkPhase::WarmUp);
            Requests {
                despawn: Some(DespawnAllRequest),
                spawn: Some(SpawnEntitiesRequest { count: engine.state.entity_count }),
                complete: None,
                save: None,
                exit: false,
            }
        },
        None => {
            engine.state.automated = false;
            engine.app_state = AppState::Results;
            handle_phase_transitions(engine, BenchmarkPhase::Complete);
            Requests::none()
        },
    }
}

/// Advances the engine by one tick that took `delta_us` microseconds.
pub fn tick(engine: &mut BenchmarkEngine, delta_us: u32) -> (requests: Requests)
    requires
        old(engine)@.wf(),
    ensures
        (final(engine)@, requests) == old(engine)@.ticked(delta_us),
        final(engine)@.wf(),
{
    if !matches!(engine.app_state, AppState::Running) {
        return Requests::none();
    }
    match engine.phase {
        BenchmarkPhase::WarmUp => {
            manage_benchmark_phase(engine);
            Requests::none()
        },
        BenchmarkPhase::Sampling => {
            collect_samples(engine, delta_us);
            Requests::none()
        },
        BenchmarkPhase::Adjusting => {
            let requests = adjust_entity_count(engine);
            if requests.complete.is_some() {
                let more = handle_benchmark_complete(engine);
                requests.followed_by(more)
            } else {
                requests
            }
        },
        _ => Requests::none(),
    }
}

/// Starts a benchmark run of the active workload.
pub fn start_benchmark(engine: &mut BenchmarkEngine) -> (requests: Requests)
    ensures
        (final(engine)@, requests) == old(engine)@.started(),
        old(engine)@.state.automated ==> old(engine)@.state.suite_index < WORKLOAD_COUNT
            ==> final(engine)@.wf(),
{
    engine.state.reset();
    engine.metrics.reset();
    engine.app_state = AppState::Running;
    handle_phase_transitions(engine, BenchmarkPhase::WarmUp);
    Requests {
        despawn: None,
        spawn: Some(SpawnEntitiesRequest { count: engine.state.entity_count }),
        complete: None,
        save: None,
        exit: false,
    }
}

/// Stops the benchmark run: every entity is to be despawned, the samples
/// of the interrupted window are discarded and the machine idles.
pub fn stop_benchmark(engine: &mut BenchmarkEngine) -> (requests: Requests)
    ensures
        (final(engine)@, requests) == old(engine)@.stopped(),
        old(engine)@.wf() ==> final(engine)@.wf(),
{
    engine.metrics.clear_samples();
    engine.app_state = AppState::Paused;
    handle_phase_transitions(engine, BenchmarkPhase::Idle);
    Requests {
        despawn: Some(DespawnAllRequest),
        spawn: None,
        complete: None,
        save: None,
        exit: false,
    }
}

/// Resets the benchmark: as a stop, and search and metrics start over.
pub fn reset_benchmark(engine: &mut BenchmarkEngine) -> (requests: Requests)
    ensures
        (final(engine)@, requests) == old(engine)@.reset(),
        old(engine)@.state.automated ==> old(engine)@.state.suite_index < WORKLOAD_COUNT
            ==> final(engine)@.wf(),
{
    engine.state.reset();
    engine.metrics.reset();
    engine.app_state = AppState::Menu;
    handle_phase_transitions(engine, BenchmarkPhase::Idle);
    Requests {
        despawn: Some(DespawnAllRequest),
        spawn: None,
        complete: None,
        save: None,
        exit: false,
    }
}

/// Resetting twice leaves the engine as resetting once does, with the same
/// request.
pub proof fn lemma_reset_idempotent(engine: EngineView)
    ensures
        engine.reset().0.reset() == engine.reset(),
        engine.reset().0.phase == BenchmarkPhase::Idle,
{
}

/// Stopping twice leaves the engine as stopping once does, with the same
/// request.
pub proof fn lemma_stop_idempotent(engine: EngineView)
    ensures
        engine.stopped().0.stopped() == engine.stopped(),
        engine.stopped().0.phase == BenchmarkPhase::Idle,
        engine.stopped().0.metrics.samples.len() == 0,
{
}

/// In a suite, the tick that completes the workload at position `i` of
/// the registry appends exactly one result, that of this workload, to the
/// report, and moves the suite to position `i + 1`: on to the next
/// registered workload, or, past the last one, out of suite mode and on to
/// the results.
pub proof fn lemma_suite_records_in_order(engine: EngineView, delta_us: u32)
    requires
        engine.wf(),
        engine.app_state == AppState::Running,
        engine.phase == BenchmarkPhase::Adjusting,
        engine.state.automated,
        engine.workload == SelectedWorkload::registry()[engine.state.suite_index as int],
        engine.results.report.is_some(),
        engine.adjusted().1.complete.is_some(),
    ensures
        ({
            let after = engine.ticked(delta_us).0;
            let position = engine.state.suite_index as int;
            let before = engine.results.report->0.results;
            &&& after.results.report.is_some()
            &&& after.results.report->0.results.len() == before.len() + 1
            &&& after.results.report->0.results.drop_last() == before
            &&& after.results.report->0.results.last().workload_name
                == SelectedWorkload::registry()[position].name_text()
            &&& after.state.suite_index == position + 1
            &&& position + 1 < WORKLOAD_COUNT ==> after.state.automated && after.workload
                == SelectedWorkload::registry()[position + 1] && after.phase
                == BenchmarkPhase::WarmUp && after.app_state == AppState::Running
            &&& position + 1 == WORKLOAD_COUNT ==> !after.state.automated && after.app_state
                == AppState::Results && after.phase == BenchmarkPhase::Complete
        }),
{
    let (adjusted, requests) = engine.adjusted();
    let before = engine.results.report->0.results;
    assert(adjusted.results.report->0.results.drop_last() =~= before);
}

} // verus!
