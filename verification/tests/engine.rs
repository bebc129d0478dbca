use bevy_ecs_benchmark::benchmark::runner::{
    adjust_entity_count, collect_samples, handle_benchmark_complete, handle_phase_transitions,
    manage_benchmark_phase,
};
use bevy_ecs_benchmark::benchmark::{
    reset_benchmark, start_benchmark, stop_benchmark, tick, BenchmarkComplete, BenchmarkEngine,
    DespawnAllRequest, Requests, SaveError, SaveResultsRequest, SpawnEntitiesRequest, SystemInfo,
};
use bevy_ecs_benchmark::config::{
    INITIAL_ENTITY_COUNT, MAX_ENTITY_COUNT, MIN_ENTITY_COUNT, SAMPLE_FRAMES, TARGET_FRAME_TIME_US,
    WARMUP_FRAMES,
};
use bevy_ecs_benchmark::control::{
    adjust_entity_count_by, handle_command, handle_input, run_automated_suite, select_workload,
    toggle_run, Command, InputSnapshot,
};
use bevy_ecs_benchmark::state::{AppState, BenchmarkPhase, BenchmarkState, SelectedWorkload};

fn machine() -> SystemInfo {
    SystemInfo { os: "linux".to_string(), cpu_cores: 8, engine_version: "0.17.3".to_string() }
}

fn nothing() -> Requests {
    Requests { despawn: None, spawn: None, complete: None, save: None, exit: false }
}

fn no_keys() -> InputSnapshot {
    InputSnapshot {
        escape: false,
        workload_keys: [false; 6],
        space: false,
        reset: false,
        enter: false,
        arrow_up: false,
        arrow_down: false,
        shift: false,
        save: false,
    }
}

/// Tick time of a synthetic workload that meets the target up to 166,660
/// entities.
fn synthetic_delta(entity_count: usize) -> u32 {
    (entity_count / 10).min(u32::MAX as usize) as u32
}

/// Runs warm-up and sampling of the current probe; the engine is left in
/// the adjusting phase.
fn run_window(engine: &mut BenchmarkEngine, delta_us: u32) {
    assert_eq!(engine.phase, BenchmarkPhase::WarmUp);
    for _ in 0..WARMUP_FRAMES {
        assert_eq!(tick(engine, delta_us), nothing());
    }
    assert_eq!(engine.phase, BenchmarkPhase::Sampling);
    for _ in 0..SAMPLE_FRAMES {
        assert_eq!(tick(engine, delta_us), nothing());
    }
    assert_eq!(engine.phase, BenchmarkPhase::Adjusting);
}

#[test]
fn new_engine_is_idle() {
    let engine = BenchmarkEngine::new(machine());
    assert_eq!(engine.app_state, AppState::Menu);
    assert_eq!(engine.phase, BenchmarkPhase::Idle);
    assert_eq!(engine.workload, SelectedWorkload::SimpleIteration);
    assert_eq!(engine.state, BenchmarkState::default());
    assert!(engine.results.report.is_none());
    assert!(engine.is_well_formed());
}

#[test]
fn idle_engine_ignores_ticks() {
    let mut engine = BenchmarkEngine::new(machine());
    let before = BenchmarkEngine::new(machine());
    assert_eq!(tick(&mut engine, 1_000), nothing());
    assert_eq!(engine, before);
}

#[test]
fn start_requests_the_first_spawn_and_warms_up() {
    let mut engine = BenchmarkEngine::new(machine());
    engine.state.entity_count = 77_000;
    engine.state.frame_counter = 9;
    let requests = start_benchmark(&mut engine);
    assert_eq!(
        requests,
        Requests { spawn: Some(SpawnEntitiesRequest { count: INITIAL_ENTITY_COUNT }), ..nothing() }
    );
    assert_eq!(engine.app_state, AppState::Running);
    assert_eq!(engine.phase, BenchmarkPhase::WarmUp);
    assert_eq!(engine.state, BenchmarkState::default());
}

#[test]
fn warm_up_lasts_sixty_ticks_and_sampling_one_hundred_twenty() {
    let mut engine = BenchmarkEngine::new(machine());
    start_benchmark(&mut engine);
    for i in 1..WARMUP_FRAMES {
        tick(&mut engine, 1_000);
        assert_eq!(engine.phase, BenchmarkPhase::WarmUp);
        assert_eq!(engine.state.frame_counter, i);
        assert!(engine.metrics.samples.is_empty());
    }
    tick(&mut engine, 1_000);
    assert_eq!(engine.phase, BenchmarkPhase::Sampling);
    assert_eq!(engine.state.frame_counter, 0);
    for i in 1..SAMPLE_FRAMES {
        tick(&mut engine, 1_000 + i as u32);
        assert_eq!(engine.phase, BenchmarkPhase::Sampling);
        assert_eq!(engine.metrics.samples.len(), i);
    }
    tick(&mut engine, 5_000);
    assert_eq!(engine.phase, BenchmarkPhase::Adjusting);
    assert_eq!(engine.metrics.samples.len(), SAMPLE_FRAMES);
    assert_eq!(engine.metrics.samples[0], 1_001);
    assert_eq!(engine.metrics.samples[SAMPLE_FRAMES - 1], 5_000);
    assert_eq!(engine.state.frame_counter, 0);
    assert!(engine.is_well_formed());
}

#[test]
fn sampling_entry_clears_the_buffer() {
    let mut engine = BenchmarkEngine::new(machine());
    engine.metrics.add_sample(3);
    engine.state.frame_counter = 5;
    handle_phase_transitions(&mut engine, BenchmarkPhase::Sampling);
    assert!(engine.metrics.samples.is_empty());
    assert_eq!(engine.state.frame_counter, 0);
    engine.metrics.add_sample(4);
    engine.state.frame_counter = 5;
    handle_phase_transitions(&mut engine, BenchmarkPhase::WarmUp);
    assert_eq!(engine.metrics.samples, vec![4]);
    assert_eq!(engine.state.frame_counter, 0);
    engine.state.frame_counter = 5;
    handle_phase_transitions(&mut engine, BenchmarkPhase::Complete);
    assert_eq!(engine.state.frame_counter, 5);
    assert_eq!(engine.phase, BenchmarkPhase::Complete);
}

#[test]
fn phase_steps_count_ticks() {
    let mut engine = BenchmarkEngine::new(machine());
    start_benchmark(&mut engine);
    manage_benchmark_phase(&mut engine);
    assert_eq!(engine.state.frame_counter, 1);
    engine.state.frame_counter = WARMUP_FRAMES - 1;
    manage_benchmark_phase(&mut engine);
    assert_eq!(engine.phase, BenchmarkPhase::Sampling);
    collect_samples(&mut engine, 42);
    assert_eq!(engine.metrics.samples, vec![42]);
    assert_eq!(engine.state.frame_counter, 1);
}

#[test]
fn adjustment_under_target_doubles_the_population() {
    let mut engine = BenchmarkEngine::new(machine());
    start_benchmark(&mut engine);
    run_window(&mut engine, 5_000);
    let requests = tick(&mut engine, 5_000);
    assert_eq!(
        requests,
        Requests {
            despawn: Some(DespawnAllRequest),
            spawn: Some(SpawnEntitiesRequest { count: 20_000 }),
            ..nothing()
        }
    );
    assert_eq!(engine.phase, BenchmarkPhase::WarmUp);
    assert_eq!(engine.state.entity_count, 20_000);
    assert_eq!(engine.state.search_low, 10_000);
    run_window(&mut engine, 18_000);
    let requests = tick(&mut engine, 18_000);
    assert_eq!(requests.spawn, Some(SpawnEntitiesRequest { count: 15_000 }));
    assert_eq!(requests.despawn, Some(DespawnAllRequest));
    assert_eq!(engine.state.search_high, 20_000);
    assert_eq!(engine.state.search_low, 10_000);
}

#[test]
fn median_at_the_target_counts_as_under() {
    let mut engine = BenchmarkEngine::new(machine());
    start_benchmark(&mut engine);
    run_window(&mut engine, TARGET_FRAME_TIME_US);
    tick(&mut engine, 0);
    assert_eq!(engine.state.entity_count, 20_000);
    run_window(&mut engine, TARGET_FRAME_TIME_US + 1);
    tick(&mut engine, 0);
    assert_eq!(engine.state.entity_count, 15_000);
}

#[test]
fn adjustment_without_samples_measures_again() {
    let mut engine = BenchmarkEngine::new(machine());
    start_benchmark(&mut engine);
    engine.phase = BenchmarkPhase::Adjusting;
    engine.state.frame_counter = 7;
    let before = engine.state;
    assert_eq!(adjust_entity_count(&mut engine), nothing());
    assert_eq!(engine.phase, BenchmarkPhase::WarmUp);
    assert_eq!(engine.state, BenchmarkState { frame_counter: 0, ..before });
    assert!(engine.results.current_workload_result.is_none());
}

#[test]
fn convergence_records_and_announces_the_result() {
    let mut engine = BenchmarkEngine::new(machine());
    select_workload(&mut engine, SelectedWorkload::PositionVelocity);
    start_benchmark(&mut engine);
    let mut cycles = 0;
    let complete = loop {
        let delta = synthetic_delta(engine.state.entity_count);
        run_window(&mut engine, delta);
        let requests = tick(&mut engine, delta);
        cycles += 1;
        assert!(cycles <= 30);
        if let Some(complete) = requests.complete {
            assert_eq!(requests.spawn, None);
            assert_eq!(requests.despawn, None);
            break complete;
        }
    };
    assert_eq!(engine.phase, BenchmarkPhase::Complete);
    assert_eq!(engine.app_state, AppState::Running);
    assert_eq!(complete.workload, SelectedWorkload::PositionVelocity);
    assert!(complete.breakdown_point <= 166_669);
    assert!(complete.breakdown_point >= 163_000);
    let result = engine.results.current_workload_result.clone().unwrap();
    assert_eq!(result.workload_name, "Position/Velocity Update");
    assert_eq!(result.workload_description, "Classic game loop: position += velocity");
    assert_eq!(result.breakdown_point, complete.breakdown_point);
    assert_eq!(result.throughput_at_breakdown, complete.throughput);
    let median = result.frame_time_stats.median_us;
    assert_eq!(
        complete,
        BenchmarkComplete {
            workload: SelectedWorkload::PositionVelocity,
            breakdown_point: complete.breakdown_point,
            throughput: complete.breakdown_point as u64 * 1_000_000 / median as u64,
        }
    );
    assert!(engine.results.report.is_none());
    // A completed engine stays complete.
    assert_eq!(tick(&mut engine, 1), nothing());
    assert_eq!(engine.phase, BenchmarkPhase::Complete);
}

#[test]
fn stop_discards_samples_and_idles() {
    let mut engine = BenchmarkEngine::new(machine());
    start_benchmark(&mut engine);
    for _ in 0..WARMUP_FRAMES + 10 {
        tick(&mut engine, 1_000);
    }
    assert_eq!(engine.metrics.samples.len(), 10);
    let requests = stop_benchmark(&mut engine);
    assert_eq!(requests, Requests { despawn: Some(DespawnAllRequest), ..nothing() });
    assert_eq!(engine.phase, BenchmarkPhase::Idle);
    assert_eq!(engine.app_state, AppState::Paused);
    assert!(engine.metrics.samples.is_empty());
    assert_eq!(tick(&mut engine, 1_000), nothing());
    assert_eq!(engine.phase, BenchmarkPhase::Idle);
}

#[test]
fn reset_twice_equals_reset_once() {
    let mut engine = BenchmarkEngine::new(machine());
    start_benchmark(&mut engine);
    run_window(&mut engine, 5_000);
    tick(&mut engine, 5_000);
    for _ in 0..WARMUP_FRAMES + 3 {
        engine.metrics.record_frame(1_000, 20_000);
        tick(&mut engine, 1_000);
    }
    let first = reset_benchmark(&mut engine);
    assert_eq!(first, Requests { despawn: Some(DespawnAllRequest), ..nothing() });
    assert_eq!(engine.phase, BenchmarkPhase::Idle);
    assert_eq!(engine.app_state, AppState::Menu);
    assert_eq!(engine.state, BenchmarkState::default());
    assert!(engine.metrics.samples.is_empty());
    assert!(engine.metrics.frame_times.is_empty());
    let mut once = BenchmarkEngine::new(machine());
    once.app_state = engine.app_state;
    once.phase = engine.phase;
    once.workload = engine.workload;
    once.state = engine.state;
    assert_eq!(engine, once);
    let second = reset_benchmark(&mut engine);
    assert_eq!(second, first);
    assert_eq!(engine, once);
}

#[test]
fn selecting_a_workload_stops_a_running_benchmark() {
    let mut engine = BenchmarkEngine::new(machine());
    assert_eq!(select_workload(&mut engine, SelectedWorkload::SpawnDespawn), nothing());
    assert_eq!(engine.workload, SelectedWorkload::SpawnDespawn);
    assert_eq!(engine.app_state, AppState::Menu);
    start_benchmark(&mut engine);
    run_window(&mut engine, 5_000);
    tick(&mut engine, 5_000);
    let requests = select_workload(&mut engine, SelectedWorkload::FragmentedArchetypes);
    assert_eq!(requests, Requests { despawn: Some(DespawnAllRequest), ..nothing() });
    assert_eq!(engine.workload, SelectedWorkload::FragmentedArchetypes);
    assert_eq!(engine.phase, BenchmarkPhase::Idle);
    assert_eq!(engine.app_state, AppState::Menu);
    assert_eq!(engine.state, BenchmarkState::default());
}

#[test]
fn manual_adjustment_is_clamped() {
    let mut engine = BenchmarkEngine::new(machine());
    assert_eq!(adjust_entity_count_by(&mut engine, 1_000), nothing());
    assert_eq!(engine.state.entity_count, 11_000);
    assert_eq!(adjust_entity_count_by(&mut engine, -10_000), nothing());
    assert_eq!(engine.state.entity_count, 1_000);
    adjust_entity_count_by(&mut engine, -10_000);
    assert_eq!(engine.state.entity_count, MIN_ENTITY_COUNT);
    adjust_entity_count_by(&mut engine, i64::MIN);
    assert_eq!(engine.state.entity_count, MIN_ENTITY_COUNT);
    adjust_entity_count_by(&mut engine, i64::MAX);
    let expected = (MIN_ENTITY_COUNT as i128 + i64::MAX as i128).min(MAX_ENTITY_COUNT as i128);
    assert_eq!(engine.state.entity_count as i128, expected);
    assert!(engine.state.entity_count <= MAX_ENTITY_COUNT);
    assert!(engine.state.has_ordered_bounds());
    assert_eq!(engine.phase, BenchmarkPhase::Idle);
}

#[test]
fn manual_adjustment_respawns_a_running_benchmark() {
    let mut engine = BenchmarkEngine::new(machine());
    start_benchmark(&mut engine);
    run_window(&mut engine, 5_000);
    tick(&mut engine, 5_000);
    run_window(&mut engine, 18_000);
    tick(&mut engine, 18_000);
    assert_eq!(engine.state.search_low, 10_000);
    assert_eq!(engine.state.search_high, 20_000);
    for _ in 0..5 {
        tick(&mut engine, 1_000);
    }
    let requests = adjust_entity_count_by(&mut engine, -10_000);
    assert_eq!(
        requests,
        Requests {
            despawn: Some(DespawnAllRequest),
            spawn: Some(SpawnEntitiesRequest { count: 5_000 }),
            ..nothing()
        }
    );
    assert_eq!(engine.phase, BenchmarkPhase::WarmUp);
    assert_eq!(engine.state.frame_counter, 0);
    assert_eq!(engine.state.entity_count, 5_000);
    assert_eq!(engine.state.search_low, 5_000);
    assert_eq!(engine.state.search_high, 20_000);
    adjust_entity_count_by(&mut engine, 30_000);
    assert_eq!(engine.state.entity_count, 35_000);
    assert_eq!(engine.state.search_high, 35_000);
    assert!(engine.is_well_formed());
}

#[test]
fn automated_suite_measures_every_workload_in_order() {
    let mut engine = BenchmarkEngine::new(machine());
    let requests = run_automated_suite(&mut engine);
    assert_eq!(
        requests,
        Requests { spawn: Some(SpawnEntitiesRequest { count: INITIAL_ENTITY_COUNT }), ..nothing() }
    );
    assert!(engine.state.automated);
    assert_eq!(engine.state.suite_index, 0);
    assert_eq!(engine.workload, SelectedWorkload::SimpleIteration);
    {
        let report = engine.results.report.as_ref().unwrap();
        assert_eq!(report.target_frame_time_us, TARGET_FRAME_TIME_US);
        assert_eq!(report.system_info, machine());
        assert!(report.results.is_empty());
        assert!(!report.timestamp.is_empty());
    }
    let mut completions: Vec<BenchmarkComplete> = Vec::new();
    let mut windows = 0;
    while engine.app_state == AppState::Running {
        windows += 1;
        assert!(windows <= 6 * 30);
        let index = engine.state.suite_index;
        assert_eq!(engine.workload, SelectedWorkload::all()[index]);
        let delta = synthetic_delta(engine.state.entity_count) * (index as u32 + 1);
        run_window(&mut engine, delta);
        let requests = tick(&mut engine, delta);
        assert!(engine.is_well_formed());
        if let Some(complete) = requests.complete {
            assert_eq!(complete.workload, SelectedWorkload::all()[index]);
            completions.push(complete);
            assert_eq!(engine.state.suite_index, index + 1);
            assert_eq!(engine.results.result_count(), index + 1);
            if index + 1 < 6 {
                assert_eq!(requests.despawn, Some(DespawnAllRequest));
                assert_eq!(
                    requests.spawn,
                    Some(SpawnEntitiesRequest { count: INITIAL_ENTITY_COUNT })
                );
                assert_eq!(engine.phase, BenchmarkPhase::WarmUp);
                assert_eq!(
                    engine.state,
                    BenchmarkState {
                        automated: true,
                        suite_index: index + 1,
                        ..BenchmarkState::default()
                    }
                );
                assert!(engine.metrics.samples.is_empty());
            } else {
                assert_eq!(requests.despawn, None);
                assert_eq!(requests.spawn, None);
            }
        }
    }
    assert_eq!(completions.len(), 6);
    assert_eq!(engine.app_state, AppState::Results);
    assert_eq!(engine.phase, BenchmarkPhase::Complete);
    assert!(!engine.state.automated);
    assert_eq!(engine.state.suite_index, 6);
    assert!(engine.results.has_results());
    assert_eq!(engine.results.result_count(), 6);
    let report = engine.results.save_report().unwrap();
    assert_eq!(report.results.len(), 6);
    for (i, result) in report.results.iter().enumerate() {
        let workload = SelectedWorkload::all()[i];
        assert_eq!(result.workload_name, workload.name());
        assert_eq!(result.workload_description, workload.description());
        assert_eq!(result.breakdown_point, completions[i].breakdown_point);
        assert_eq!(result.throughput_at_breakdown, completions[i].throughput);
        let limit = 10 * (16_666 / (i + 1)) + 9;
        assert!(result.breakdown_point <= limit);
        let short = limit - result.breakdown_point;
        assert!(short < 100 || short * 49 < result.breakdown_point);
    }
    assert_eq!(
        engine.results.current_workload_result.as_ref().unwrap().workload_name,
        "Fragmented Archetypes"
    );
    assert_eq!(tick(&mut engine, 1_000), nothing());
}

#[test]
fn suite_is_not_started_while_running() {
    let mut engine = BenchmarkEngine::new(machine());
    start_benchmark(&mut engine);
    tick(&mut engine, 1_000);
    let before_counter = engine.state.frame_counter;
    assert_eq!(run_automated_suite(&mut engine), nothing());
    assert!(!engine.state.automated);
    assert!(engine.results.report.is_none());
    assert_eq!(engine.state.frame_counter, before_counter);
}

#[test]
fn completion_outside_a_suite_changes_nothing() {
    let mut engine = BenchmarkEngine::new(machine());
    engine.phase = BenchmarkPhase::Complete;
    engine.app_state = AppState::Running;
    assert_eq!(handle_benchmark_complete(&mut engine), nothing());
    assert_eq!(engine.phase, BenchmarkPhase::Complete);
    assert_eq!(engine.app_state, AppState::Running);
    assert_eq!(engine.state, BenchmarkState::default());
}

#[test]
fn save_without_report_is_a_named_error() {
    let engine = BenchmarkEngine::new(machine());
    assert_eq!(engine.results.save_report(), Err(SaveError::NoReport));
    assert_eq!(SaveError::NoReport.message(), "No report to save");
    assert!(!engine.results.has_results());
    assert_eq!(engine.results.result_count(), 0);
}

#[test]
fn commands_map_to_operations() {
    let mut engine = BenchmarkEngine::new(machine());
    let requests = handle_command(&mut engine, Command::StartBenchmark);
    assert_eq!(requests.spawn, Some(SpawnEntitiesRequest { count: INITIAL_ENTITY_COUNT }));
    assert_eq!(engine.app_state, AppState::Running);
    let requests = handle_command(&mut engine, Command::AdjustEntityCount(1_000));
    assert_eq!(requests.spawn, Some(SpawnEntitiesRequest { count: 11_000 }));
    let requests = handle_command(&mut engine, Command::StopBenchmark);
    assert_eq!(requests.despawn, Some(DespawnAllRequest));
    assert_eq!(engine.app_state, AppState::Paused);
    let requests = handle_command(&mut engine, Command::SaveResults);
    assert_eq!(requests, Requests { save: Some(SaveResultsRequest), ..nothing() });
    handle_command(&mut engine, Command::SelectWorkload(SelectedWorkload::MultiComponentRead));
    assert_eq!(engine.workload, SelectedWorkload::MultiComponentRead);
    handle_command(&mut engine, Command::RunAutomatedSuite);
    assert!(engine.state.automated);
    assert_eq!(engine.workload, SelectedWorkload::SimpleIteration);
    let requests = handle_command(&mut engine, Command::ResetBenchmark);
    assert_eq!(requests, Requests { despawn: Some(DespawnAllRequest), ..nothing() });
    assert_eq!(engine.phase, BenchmarkPhase::Idle);
    assert_eq!(engine.app_state, AppState::Menu);
    assert!(engine.is_well_formed());
}

#[test]
fn run_key_toggles_between_running_and_paused() {
    let mut engine = BenchmarkEngine::new(machine());
    toggle_run(&mut engine);
    assert_eq!(engine.app_state, AppState::Running);
    let requests = toggle_run(&mut engine);
    assert_eq!(requests.despawn, Some(DespawnAllRequest));
    assert_eq!(engine.app_state, AppState::Paused);
    toggle_run(&mut engine);
    assert_eq!(engine.app_state, AppState::Running);
    engine.app_state = AppState::Results;
    engine.phase = BenchmarkPhase::Complete;
    assert_eq!(toggle_run(&mut engine), nothing());
    assert_eq!(engine.app_state, AppState::Menu);
}

#[test]
fn escape_asks_to_quit_and_nothing_else() {
    let mut engine = BenchmarkEngine::new(machine());
    let input = InputSnapshot { escape: true, space: true, enter: true, ..no_keys() };
    let requests = handle_input(&mut engine, &input);
    assert_eq!(requests, Requests { exit: true, ..nothing() });
    assert_eq!(engine, BenchmarkEngine::new(machine()));
}

#[test]
fn input_is_handled_in_a_fixed_order() {
    let mut engine = BenchmarkEngine::new(machine());
    let mut keys = [false; 6];
    keys[2] = true;
    keys[4] = true;
    let input = InputSnapshot { workload_keys: keys, space: true, arrow_up: true, shift: true, save: true, ..no_keys() };
    let requests = handle_input(&mut engine, &input);
    assert_eq!(engine.workload, SelectedWorkload::ComponentAddRemove);
    assert_eq!(engine.app_state, AppState::Running);
    assert_eq!(engine.phase, BenchmarkPhase::WarmUp);
    assert_eq!(engine.state.entity_count, 20_000);
    assert_eq!(
        requests,
        Requests {
            despawn: Some(DespawnAllRequest),
            spawn: Some(SpawnEntitiesRequest { count: 20_000 }),
            complete: None,
            save: Some(SaveResultsRequest),
            exit: false,
        }
    );
    let down = InputSnapshot { arrow_down: true, ..no_keys() };
    handle_input(&mut engine, &down);
    assert_eq!(engine.state.entity_count, 19_000);
    let reset = InputSnapshot { reset: true, ..no_keys() };
    let requests = handle_input(&mut engine, &reset);
    assert_eq!(requests, Requests { despawn: Some(DespawnAllRequest), ..nothing() });
    assert_eq!(engine.app_state, AppState::Menu);
    let suite = InputSnapshot { enter: true, ..no_keys() };
    handle_input(&mut engine, &suite);
    assert!(engine.state.automated);
    assert!(engine.results.report.is_some());
    assert_eq!(handle_input(&mut engine, &no_keys()), nothing());
}
