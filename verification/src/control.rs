//! Commands: what the engine accepts from outside, and how one frame of
//! keyboard input turns into commands.

use vstd::prelude::*;

use crate::benchmark::convergence::clamp_count;
use crate::benchmark::results::{BenchmarkReportView, BenchmarkResultsView};
use crate::benchmark::runner::{
    handle_phase_transitions, reset_benchmark, start_benchmark, stop_benchmark, BenchmarkEngine,
    DespawnAllRequest, EngineView, Requests, SaveResultsRequest, SpawnEntitiesRequest,
};
use crate::config::{
    MANUAL_STEP_SIZE, MANUAL_STEP_SIZE_LARGE, MAX_ENTITY_COUNT, MIN_ENTITY_COUNT,
    TARGET_FRAME_TIME_US,
};
use crate::state::{AppState, BenchmarkPhase, BenchmarkState, SelectedWorkload, WORKLOAD_COUNT};

verus! {

/// A command to the engine.
#[derive(Debug, Clone, Copy, PartialEq, Eq)]
pub enum Command {
    /// Start a run of the active workload.
    StartBenchmark,
    /// Stop the run.
    StopBenchmark,
    /// Stop the run and forget what was measured.
    ResetBenchmark,
    /// Make another workload the active one.
    SelectWorkload(SelectedWorkload),
    /// Move the entity count by a signed number of entities.
    AdjustEntityCount(i64),
    /// Measure every registered workload in turn.
    RunAutomatedSuite,
    /// Persist the active report.
    SaveResults,
}

/// The keys of one frame that the engine reacts to.
#[derive(Debug, Clone, Copy, PartialEq, Eq)]
pub struct InputSnapshot {
    /// Escape was pressed.
    pub escape: bool,
    /// For each registered workload, whether its key was pressed.
    pub workload_keys: [bool; 6],
    /// Space was pressed.
    pub space: bool,
    /// The reset key was pressed.
    pub reset: bool,
    /// Enter was pressed.
    pub enter: bool,
    /// Arrow-up was pressed.
    pub arrow_up: bool,
    /// Arrow-down was pressed.
    pub arrow_down: bool,
    /// A shift key is held.
    pub shift: bool,
    /// The save key was pressed.
    pub save: bool,
}

/// The timestamp of the active report; empty without a report.
pub open spec fn report_timestamp(results: BenchmarkResultsView) -> Seq<char> {
    match results.report {
        Some(report) => report.timestamp,
        None => Seq::empty(),
    }
}

/// The outcome `first` followed by the outcome `next` of a later
/// operation: the engine is that of `next`, the requests are merged.
pub open spec fn chained(first: (EngineView, Requests), next: (EngineView, Requests)) -> (
    EngineView,
    Requests,
) {
    (next.0, first.1.before(next.1))
}

impl EngineView {
    /// The engine after `workload` was selected: a running benchmark is
    /// stopped first, then the workload becomes the active one and its
    /// search starts over.
    pub open spec fn selected(self, workload: SelectedWorkload) -> (EngineView, Requests) {
        if self.app_state == AppState::Running {
            (
                EngineView {
                    app_state: AppState::Menu,
                    phase: BenchmarkPhase::Idle,
                    workload,
                    state: self.state.restarted(),
                    metrics: self.metrics.without_samples(),
                    ..self
                },
                Requests::despawn_all(),
            )
        } else {
            (EngineView { workload, state: self.state.restarted(), ..self }, Requests::nothing())
        }
    }

    /// The search state after the entity count moved by `delta`: the count
    /// is held to the configured limits, and a search bound that the new
    /// count has passed moves with it.
    pub open spec fn moved_state(self, delta: int) -> BenchmarkState {
        let count = clamp_count(self.state.entity_count + delta) as usize;
        BenchmarkState {
            entity_count: count,
            search_low: if count < self.state.search_low {
                count
            } else {
                self.state.search_low
            },
            search_high: if count > self.state.search_high {
                count
            } else {
                self.state.search_high
            },
            ..self.state
        }
    }

    /// The engine after the entity count was moved by `delta`.  A running
    /// benchmark respawns at the new count and warms up again.
    pub open spec fn manually_adjusted(self, delta: int) -> (EngineView, Requests) {
        let state = self.moved_state(delta);
        if self.app_state == AppState::Running {
            (
                EngineView { state, ..self }.entered(BenchmarkPhase::WarmUp),
                Requests::respawn(state.entity_count),
            )
        } else {
            (EngineView { state, ..self }, Requests::nothing())
        }
    }

    /// The engine after an automated suite was asked for at `timestamp`.
    /// A running benchmark ignores the command.  Otherwise a new report
    /// replaces any earlier one and the first registered workload starts.
    pub open spec fn suite_started(self, timestamp: Seq<char>) -> (EngineView, Requests) {
        if self.app_state == AppState::Running {
            (self, Requests::nothing())
        } else {
            EngineView {
                workload: SelectedWorkload::registry()[0],
                state: BenchmarkState { automated: true, suite_index: 0, ..self.state },
                results: BenchmarkResultsView {
                    report: Some(
                        BenchmarkReportView {
                            timestamp,
                            target_frame_time_us: TARGET_FRAME_TIME_US,
                            system_info: self.system_info,
                            results: Seq::empty(),
                        },
                    ),
                    current_workload_result: None,
                },
                ..self
            }.started()
        }
    }

    /// The engine after `command`; `timestamp` is the creation time of the
    /// report that an automated suite opens.
    pub open spec fn commanded(self, command: Command, timestamp: Seq<char>) -> (
        EngineView,
        Requests,
    ) {
        match command {
            Command::StartBenchmark => self.started(),
            Command::StopBenchmark => self.stopped(),
            Command::ResetBenchmark => self.reset(),
            Command::SelectWorkload(workload) => self.selected(workload),
            Command::AdjustEntityCount(delta) => self.manually_adjusted(delta as int),
            Command::RunAutomatedSuite => self.suite_started(timestamp),
            Command::SaveResults => (
                self,
                Requests { save: Some(SaveResultsRequest), ..Requests::nothing() },
            ),
        }
    }

    /// The engine after the run key: it starts a benchmark from the menu
    /// or from a pause, stops a running one, and leaves the results for
    /// the menu.
    pub open spec fn toggled(self) -> (EngineView, Requests) {
        match self.app_state {
            AppState::Menu => self.started(),
            AppState::Paused => self.started(),
            AppState::Running => self.stopped(),
            AppState::Results => (
                EngineView { app_state: AppState::Menu, ..self },
                Requests::nothing(),
            ),
        }
    }

    /// The outcome after the workload keys below `upto` were handled, in
    /// registration order.
    pub open spec fn keys_selected(self, keys: Seq<bool>, upto: nat) -> (EngineView, Requests)
        decreases upto,
    {
        if upto == 0 {
            (self, Requests::nothing())
        } else {
            let before = self.keys_selected(keys, (upto - 1) as nat);
            if keys[upto - 1] {
                chained(before, before.0.selected(SelectedWorkload::registry()[upto - 1]))
            } else {
                before
            }
        }
    }

    /// The outcome after one frame of input.
    ///
    /// Escape asks to quit and nothing else happens.  Otherwise the keys
    /// are handled in a fixed order, each on the engine as the earlier ones
    /// left it: workload keys, run key, reset, suite, arrow-up,
    /// arrow-down, save.  The arrows move the entity count by
    /// `MANUAL_STEP_SIZE`, or by `MANUAL_STEP_SIZE_LARGE` with shift held.
    pub open spec fn input_handled(self, input: InputSnapshot, timestamp: Seq<char>) -> (
        EngineView,
        Requests,
    ) {
        if input.escape {
            (self, Requests { exit: true, ..Requests::nothing() })
        } else {
            let step: int = if input.shift {
                MANUAL_STEP_SIZE_LARGE as int
            } else {
                MANUAL_STEP_SIZE as int
            };
            let s1 = self.keys_selected(input.workload_keys@, WORKLOAD_COUNT as nat);
            let s2 = if input.space {
                chained(s1, s1.0.toggled())
            } else {
                s1
            };
            let s3 = if input.reset {
                chained(s2, s2.0.reset())
            } else {
                s2
            };
            let s4 = if input.enter {
                chained(s3, s3.0.suite_started(timestamp))
            } else {
                s3
            };
            let s5 = if input.arrow_up {
                chained(s4, s4.0.manually_adjusted(step))
            } else {
                s4
            };
            let s6 = if input.arrow_down {
                chained(s5, s5.0.manually_adjusted(-step))
            } else {
                s5
            };
            if input.save {
                chained(s6, s6.0.commanded(Command::SaveResults, timestamp))
            } else {
                s6
            }
        }
    }
}

/// Makes `workload` the active one.
pub fn select_workload(engine: &mut BenchmarkEngine, workload: SelectedWorkload) -> (requests:
    Requests)
    ensures
        (final(engine)@, requests) == old(engine)@.selected(workload),
        old(engine)@.wf() ==> final(engine)@.wf(),
        final(engine)@.results == old(engine)@.results,
{
    let running: bool = matches!(engine.app_state, AppState::Running);
    if running {
        engine.metrics.clear_samples();
        engine.app_state = AppState::Menu;
        handle_phase_transitions(engine, BenchmarkPhase::Idle);
    }
    engine.workload = workload;
    engine.state.reset_for_new_workload();
    if running {
        Requests {
            despawn: Some(DespawnAllRequest),
            spawn: None,
            complete: None,
            save: None,
            exit: false,
        }
    } else {
        Requests::none()
    }
}

/// Moves the entity count by `delta` entities, held to the configured
/// limits.
pub fn adjust_entity_count_by(engine: &mut BenchmarkEngine, delta: i64) -> (requests: Requests)
    ensures
        (final(engine)@, requests) == old(engine)@.manually_adjusted(delta as int),
        old(engine)@.wf() ==> final(engine)@.wf(),
        final(engine)@.results == old(engine)@.results,
{
    let moved: i128 = engine.state.entity_count as i128 + delta as i128;
    let count: usize = if moved < MIN_ENTITY_COUNT as i128 {
        MIN_ENTITY_COUNT
    } else if moved > MAX_ENTITY_COUNT as i128 {
        MAX_ENTITY_COUNT
    } else {
        moved as usize
    };
    engine.state.entity_count = count;
    if count < engine.state.search_low {
        engine.state.search_low = count;
    }
    if count > engine.state.search_high {
        engine.state.search_high = count;
    }
    if matches!(engine.app_state, AppState::Running) {
        handle_phase_transitions(engine, BenchmarkPhase::WarmUp);
        Requests {
            despawn: Some(DespawnAllRequest),
            spawn: Some(SpawnEntitiesRequest { count }),
            complete: None,
            save: None,
            exit: false,
        }
    } else {
        Requests::none()
    }
}

/// Starts an automated suite over every registered workload, unless a
/// benchmark is running.
pub fn run_automated_suite(engine: &mut BenchmarkEngine) -> (requests: Requests)
    ensures
        (final(engine)@, requests) == old(engine)@.suite_started(
            report_timestamp(final(engine)@.results),
        ),
        old(engine)@.wf() ==> final(engine)@.wf(),
        old(engine)@.app_state == AppState::Running ==> final(engine)@.results == old(
            engine,
        )@.results,
{
    if matches!(engine.app_state, AppState::Running) {
        return Requests::none();
    }
    let system_info = engine.system_info.clone();
    engine.results.start_new_report(TARGET_FRAME_TIME_US, system_info);
    engine.state.automated = true;
    engine.state.suite_index = 0;
    engine.workload = SelectedWorkload::SimpleIteration;
    start_benchmark(engine)
}

/// Applies the run key.
pub fn toggle_run(engine: &mut BenchmarkEngine) -> (requests: Requests)
    ensures
        (final(engine)@, requests) == old(engine)@.toggled(),
        old(engine)@.wf() ==> final(engine)@.wf(),
        final(engine)@.results == old(engine)@.results,
{
    match engine.app_state {
        AppState::Menu => start_benchmark(engine),
        AppState::Paused => start_benchmark(engine),
        AppState::Running => stop_benchmark(engine),
        AppState::Results => {
            engine.app_state = AppState::Menu;
            Requests::none()
        },
    }
}

/// Applies `command` to the engine.
pub fn handle_command(engine: &mut BenchmarkEngine, command: Command) -> (requests: Requests)
    ensures
        (final(engine)@, requests) == old(engine)@.commanded(
            command,
            report_timestamp(final(engine)@.results),
        ),
        old(engine)@.wf() ==> final(engine)@.wf(),
{
    match command {
        Command::StartBenchmark => start_benchmark(engine),
        Command::StopBenchmark => stop_benchmark(engine),
        Command::ResetBenchmark => reset_benchmark(engine),
        Command::SelectWorkload(workload) => select_workload(engine, workload),
        Command::AdjustEntityCount(delta) => adjust_entity_count_by(engine, delta),
        Command::RunAutomatedSuite => run_automated_suite(engine),
        Command::SaveResults => Requests {
            despawn: None,
            spawn: None,
            complete: None,
            save: Some(SaveResultsRequest),
            exit: false,
        },
    }
}

/// Applies one frame of input to the engine.
pub fn handle_input(engine: &mut BenchmarkEngine, input: &InputSnapshot) -> (requests: Requests)
    ensures
        (final(engine)@, requests) == old(engine)@.input_handled(
            *input,
            report_timestamp(final(engine)@.results),
        ),
        old(engine)@.wf() ==> final(engine)@.wf(),
{
    if input.escape {
        return Requests { despawn: None, spawn: None, complete: None, save: None, exit: true };
    }
    let ghost start = engine@;
    let mut requests: Requests = Requests::none();
    let mut i: usize = 0;
    while i < WORKLOAD_COUNT
        invariant
            i <= WORKLOAD_COUNT,
            (engine@, requests) == start.keys_selected(input.workload_keys@, i as nat),
            start.wf() ==> engine@.wf(),
            engine@.results == start.results,
        decreases WORKLOAD_COUNT - i,
    {
        if input.workload_keys[i] {
            match SelectedWorkload::at(i) {
                Some(workload) => {
                    let more = select_workload(engine, workload);
                    requests = requests.followed_by(more);
                },
                None => {},
            }
        }
        i += 1;
    }
    if input.space {
        let more = toggle_run(engine);
        requests = requests.followed_by(more);
    }
    if input.reset {
        let more = reset_benchmark(engine);
        requests = requests.followed_by(more);
    }
    let ghost before_suite = engine@;
    if input.enter {
        let more = run_automated_suite(engine);
        requests = requests.followed_by(more);
    }
    let ghost timestamp = report_timestamp(engine@.results);
    assert(input.enter ==> before_suite.suite_started(timestamp).0 == engine@);
    let step: i64 = if input.shift {
        MANUAL_STEP_SIZE_LARGE as i64
    } else {
        MANUAL_STEP_SIZE as i64
    };
    if input.arrow_up {
        let more = adjust_entity_count_by(engine, step);
        requests = requests.followed_by(more);
    }
    if input.arrow_down {
        let more = adjust_entity_count_by(engine, -step);
        requests = requests.followed_by(more);
    }
    if input.save {
        let more = handle_command(engine, Command::SaveResults);
        requests = requests.followed_by(more);
    }
    requests
}

/// A command leaves the search bounds ordered and the engine within its
/// invariant, whatever the command.
pub proof fn lemma_commands_keep_invariant(
    engine: EngineView,
    command: Command,
    timestamp: Seq<char>,
)
    requires
        engine.wf(),
    ensures
        engine.commanded(command, timestamp).0.wf(),
{
}

/// A stop or a reset, in any phase, leaves the machine idle with an empty
/// sample buffer and asks for every entity to be despawned.
pub proof fn lemma_cancel_discards_samples(engine: EngineView)
    ensures
        engine.stopped().0.phase == BenchmarkPhase::Idle,
        engine.stopped().0.metrics.samples == Seq::<u32>::empty(),
        engine.stopped().1.despawn.is_some(),
        engine.reset().0.phase == BenchmarkPhase::Idle,
        engine.reset().0.metrics.samples == Seq::<u32>::empty(),
        engine.reset().1.despawn.is_some(),
{
}

} // verus!
