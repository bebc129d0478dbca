use bevy_ecs_benchmark::benchmark::Adjustment;
use bevy_ecs_benchmark::config::{MAX_ENTITY_COUNT, MIN_ENTITY_COUNT};
use bevy_ecs_benchmark::state::BenchmarkState;

fn run_search(limit: usize, max_cycles: usize) -> Option<(usize, usize, BenchmarkState)> {
    let mut state = BenchmarkState::default();
    for cycle in 1..=max_cycles {
        let exceeds = state.entity_count > limit;
        match state.adjust(exceeds) {
            Adjustment::Converged { breakdown_point } => {
                return Some((breakdown_point, cycle, state));
            }
            Adjustment::Probe { entity_count } => {
                assert_eq!(entity_count, state.entity_count);
                assert!(state.has_ordered_bounds());
            }
        }
    }
    None
}

#[test]
fn first_probes_follow_the_documented_scenario() {
    let mut state = BenchmarkState::default();
    assert_eq!(state.entity_count, 10_000);
    assert_eq!(state.search_low, 100);
    assert_eq!(state.search_high, MAX_ENTITY_COUNT);
    // 5 ms at 10,000 entities: under the target, the count doubles.
    assert_eq!(state.adjust(false), Adjustment::Probe { entity_count: 20_000 });
    assert_eq!(state.search_low, 10_000);
    assert_eq!(state.search_high, MAX_ENTITY_COUNT);
    // 18 ms at 20,000 entities: over the target, bisect above the last
    // probe that met it.
    assert_eq!(state.adjust(true), Adjustment::Probe { entity_count: 15_000 });
    assert_eq!(state.search_low, 10_000);
    assert_eq!(state.search_high, 20_000);
    assert_eq!(state.adjust(true), Adjustment::Probe { entity_count: 12_500 });
    assert_eq!(state.adjust(false), Adjustment::Probe { entity_count: 13_750 });
    assert_eq!(state.search_low, 12_500);
    assert_eq!(state.search_high, 15_000);
}

#[test]
fn first_probe_over_target_bisects_from_the_minimum() {
    let mut state = BenchmarkState::default();
    assert_eq!(state.adjust(true), Adjustment::Probe { entity_count: 5_050 });
    assert_eq!(state.search_low, MIN_ENTITY_COUNT);
    assert_eq!(state.search_high, 10_000);
}

#[test]
fn search_converges_near_the_crossover() {
    for limit in [100usize, 101, 4_999, 9_999, 10_000, 12_345, 166_660, 1_000_000, 1_310_719_999]
    {
        let (breakdown, cycles, state) = run_search(limit, 30).unwrap();
        assert!(cycles <= 26, "limit {} took {} cycles", limit, cycles);
        assert!(breakdown <= limit);
        assert!(breakdown >= MIN_ENTITY_COUNT);
        assert!(limit < state.search_high);
        assert_eq!(breakdown, state.search_low);
        let short = limit - breakdown;
        assert!(short < 100 || short * 49 < breakdown);
    }
}

#[test]
fn converged_search_reports_the_last_probe_that_met_the_target() {
    let mut state = BenchmarkState {
        entity_count: 10_050,
        search_low: 10_000,
        search_high: 10_100,
        frame_counter: 0,
        automated: false,
        suite_index: 0,
    };
    let mut over = state;
    assert_eq!(over.adjust(true), Adjustment::Converged { breakdown_point: 10_000 });
    assert_eq!(over.search_high, 10_050);
    assert_eq!(over.entity_count, 10_050);
    assert_eq!(state.adjust(false), Adjustment::Converged { breakdown_point: 10_050 });
    assert_eq!(state.search_low, 10_050);
}

#[test]
fn relative_gap_below_two_percent_converges() {
    let mut state = BenchmarkState {
        entity_count: 1_000_000,
        search_low: 990_000,
        search_high: 1_019_999,
        frame_counter: 0,
        automated: false,
        suite_index: 0,
    };
    // Gap 19,999 is below 2 % of 1,000,000.
    assert_eq!(state.adjust(false), Adjustment::Converged { breakdown_point: 1_000_000 });
    let mut wider = BenchmarkState {
        entity_count: 1_000_000,
        search_low: 990_000,
        search_high: 1_020_000,
        frame_counter: 0,
        automated: false,
        suite_index: 0,
    };
    // Gap 20,000 is exactly 2 %: not converged, bisect.
    assert_eq!(wider.adjust(false), Adjustment::Probe { entity_count: 1_010_000 });
}

#[test]
fn absolute_gap_below_one_hundred_converges() {
    let mut state = BenchmarkState {
        entity_count: 199,
        search_low: 100,
        search_high: 1_000,
        frame_counter: 0,
        automated: false,
        suite_index: 0,
    };
    assert_eq!(state.adjust(true), Adjustment::Converged { breakdown_point: 100 });
    let mut wider = BenchmarkState { entity_count: 200, search_high: 1_000, ..state };
    wider.search_low = 100;
    assert_eq!(wider.adjust(true), Adjustment::Probe { entity_count: 150 });
}

#[test]
fn zero_entity_count_is_bisected() {
    let mut state = BenchmarkState {
        entity_count: 0,
        search_low: 0,
        search_high: MAX_ENTITY_COUNT,
        frame_counter: 0,
        automated: false,
        suite_index: 0,
    };
    assert_eq!(state.adjust(false), Adjustment::Probe { entity_count: MAX_ENTITY_COUNT / 2 });
    let mut small = BenchmarkState {
        entity_count: 0,
        search_low: 0,
        search_high: 150,
        frame_counter: 0,
        automated: false,
        suite_index: 0,
    };
    // The midpoint 75 is raised to the minimum.
    assert_eq!(small.adjust(false), Adjustment::Probe { entity_count: MIN_ENTITY_COUNT });
}

#[test]
fn growth_is_clamped_to_the_maximum() {
    let mut state = BenchmarkState {
        entity_count: MAX_ENTITY_COUNT / 2 + 1_000,
        search_low: 100,
        search_high: MAX_ENTITY_COUNT,
        frame_counter: 0,
        automated: false,
        suite_index: 0,
    };
    assert_eq!(state.adjust(false), Adjustment::Probe { entity_count: MAX_ENTITY_COUNT });
    assert_eq!(state.adjust(false), Adjustment::Converged { breakdown_point: MAX_ENTITY_COUNT });
}

#[test]
fn a_workload_that_never_exceeds_ends_at_the_maximum() {
    let (breakdown, cycles, _) = run_search(usize::MAX, 200).unwrap();
    assert_eq!(breakdown, MAX_ENTITY_COUNT);
    assert!(cycles <= usize::BITS as usize);
}

#[test]
fn a_workload_that_always_exceeds_ends_at_the_minimum() {
    let (breakdown, cycles, _) = run_search(0, 30).unwrap();
    assert_eq!(breakdown, MIN_ENTITY_COUNT);
    assert!(cycles <= 9);
}

#[test]
fn reset_restores_the_initial_search() {
    let mut state = BenchmarkState::default();
    state.adjust(false);
    state.adjust(true);
    state.frame_counter = 17;
    state.automated = true;
    state.suite_index = 3;
    state.reset();
    assert_eq!(
        state,
        BenchmarkState { automated: true, suite_index: 3, ..BenchmarkState::default() }
    );
    state.adjust(true);
    state.reset_for_new_workload();
    assert_eq!(
        state,
        BenchmarkState { automated: true, suite_index: 3, ..BenchmarkState::default() }
    );
    assert!(state.has_ordered_bounds());
}
