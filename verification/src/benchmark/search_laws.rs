//! Laws of the breakdown search against a workload whose tick time grows
//! with the entity count.
//!
//! Such a workload has a crossover: a largest entity count that still
//! meets the target.  The search finds it, to within its convergence
//! tolerance, in a number of adjustments that is logarithmic in the
//! crossover.

use vstd::arithmetic::power2::{lemma2_to64, lemma_pow2_pos, lemma_pow2_unfold, pow2};
use vstd::prelude::*;

use crate::benchmark::convergence::Adjustment;
use crate::config::{
    INITIAL_ENTITY_COUNT, MAX_ENTITY_COUNT, MIN_CONVERGENCE_GAP, MIN_ENTITY_COUNT,
};
use crate::state::BenchmarkState;

verus! {

/// The breakdown point that the search reports when it runs from `state`
/// for at most `cycles` adjustments against a workload that exceeds the
/// target exactly above `limit` entities; `None` if it has not converged
/// by then.
pub open spec fn search_outcome(state: BenchmarkState, limit: int, cycles: nat) -> Option<usize>
    decreases cycles,
{
    if cycles == 0 {
        None
    } else {
        match state.adjustment(state.entity_count > limit) {
            Adjustment::Converged { breakdown_point } => Some(breakdown_point),
            Adjustment::Probe { entity_count } => search_outcome(
                state.adjusted(state.entity_count > limit),
                limit,
                (cycles - 1) as nat,
            ),
        }
    }
}

/// `breakdown` meets the target and is close to the crossover `limit`:
/// it is at most `limit`, and falls short of it by less than
/// `MIN_CONVERGENCE_GAP` entities or by less than a 49th of itself.
pub open spec fn brackets(breakdown: int, limit: int) -> bool {
    &&& MIN_ENTITY_COUNT <= breakdown <= limit
    &&& limit - breakdown < MIN_CONVERGENCE_GAP || (limit - breakdown) * 49 < breakdown
}

/// The search from `state` converges within `cycles` adjustments on a
/// breakdown point that brackets `limit`.
pub open spec fn found_within(state: BenchmarkState, limit: int, cycles: nat) -> bool {
    match search_outcome(state, limit, cycles) {
        Some(breakdown) => brackets(breakdown as int, limit),
        None => false,
    }
}

/// A search that converges within some number of adjustments reports the
/// same breakdown point when it is allowed more.
pub proof fn lemma_more_cycles(state: BenchmarkState, limit: int, cycles: nat, more: nat)
    requires
        cycles <= more,
        search_outcome(state, limit, cycles).is_some(),
    ensures
        search_outcome(state, limit, more) == search_outcome(state, limit, cycles),
    decreases cycles,
{
    if cycles > 0 {
        let exceeds = state.entity_count > limit;
        match state.adjustment(exceeds) {
            Adjustment::Converged { breakdown_point } => {},
            Adjustment::Probe { entity_count } => {
                lemma_more_cycles(
                    state.adjusted(exceeds),
                    limit,
                    (cycles - 1) as nat,
                    (more - 1) as nat,
                );
            },
        }
    }
}

/// Bisection: once the ceiling is constrained and the probe stands at the
/// midpoint of bounds that enclose the crossover, each adjustment halves
/// the gap.  With a gap of at most `quota * 2^halvings`, where a gap of
/// `quota` counts as converged, the search is over after `halvings + 1`
/// adjustments.
pub proof fn lemma_bisection_converges(
    state: BenchmarkState,
    limit: int,
    halvings: nat,
    quota: int,
)
    requires
        MIN_ENTITY_COUNT <= state.search_low <= limit < state.search_high < MAX_ENTITY_COUNT,
        state.entity_count == state.midpoint(),
        0 <= quota,
        quota < MIN_CONVERGENCE_GAP || quota * 50 < state.search_low,
        state.gap() <= quota * pow2(halvings),
    ensures
        found_within(state, limit, halvings + 1),
    decreases halvings,
{
    let exceeds = state.entity_count > limit;
    let t = state.tightened(exceeds);
    assert(2 * t.gap() <= state.gap() + 1);
    if !t.converged() {
        if halvings == 0 {
            lemma2_to64();
            assert(quota * pow2(0) == quota) by (nonlinear_arith)
                requires
                    pow2(0) == 1,
            ;
            assert(false);
        }
        lemma_pow2_unfold(halvings);
        let half = quota * pow2((halvings - 1) as nat);
        assert(quota * pow2(halvings) == 2 * half) by (nonlinear_arith)
            requires
                pow2(halvings) == 2 * pow2((halvings - 1) as nat),
                half == quota * pow2((halvings - 1) as nat),
        ;
        let next = state.adjusted(exceeds);
        assert(next.entity_count == t.midpoint());
        lemma_bisection_converges(next, limit, (halvings - 1) as nat, quota);
    }
}

/// Growth: while no probe has missed the target the entity count doubles.
/// A probe at twice the floor, with the crossover less than `doublings`
/// doublings away, leads to convergence within `doublings + 8`
/// adjustments.
pub proof fn lemma_growth_converges(state: BenchmarkState, limit: int, doublings: nat)
    requires
        state.search_high == MAX_ENTITY_COUNT,
        INITIAL_ENTITY_COUNT <= state.search_low <= limit,
        state.entity_count == 2 * state.search_low,
        limit < state.entity_count * pow2(doublings) < MAX_ENTITY_COUNT,
    ensures
        found_within(state, limit, doublings + 8),
    decreases doublings,
{
    let count = state.entity_count as int;
    let floor = state.search_low as int;
    let exceeds = state.entity_count > limit;
    let t = state.tightened(exceeds);
    let next = state.adjusted(exceeds);
    lemma_pow2_pos(doublings);
    assert(count <= count * pow2(doublings)) by (nonlinear_arith)
        requires
            count >= 0,
            pow2(doublings) >= 1,
    ;
    if exceeds {
        assert(!t.converged());
        assert(next.entity_count == t.midpoint());
        let quota = (floor - 1) / 50;
        lemma2_to64();
        assert(floor <= quota * pow2(6));
        lemma_bisection_converges(next, limit, 6, quota);
        lemma_more_cycles(next, limit, 7, (doublings + 7) as nat);
    } else {
        if doublings == 0 {
            lemma2_to64();
            assert(count * pow2(0) == count) by (nonlinear_arith)
                requires
                    pow2(0) == 1,
            ;
            assert(false);
        }
        lemma_pow2_unfold(doublings);
        lemma_pow2_pos((doublings - 1) as nat);
        assert(count * pow2(doublings) == (2 * count) * pow2((doublings - 1) as nat)
            && 2 * count <= count * pow2(doublings)) by (nonlinear_arith)
            requires
                count >= 0,
                pow2((doublings - 1) as nat) >= 1,
                pow2(doublings) == 2 * pow2((doublings - 1) as nat),
        ;
        assert(!t.converged());
        assert(next.entity_count == 2 * count);
        lemma_growth_converges(next, limit, (doublings - 1) as nat);
    }
}

/// The search from its initial state, against a workload that exceeds the
/// target exactly above `limit` entities, converges within
/// `doublings + 9` adjustments when the crossover lies less than
/// `doublings` doublings above the first probe.  The breakdown point it
/// reports meets the target and brackets the crossover.
pub proof fn lemma_search_converges(limit: int, doublings: nat)
    requires
        MIN_ENTITY_COUNT <= limit < INITIAL_ENTITY_COUNT * pow2(doublings) < MAX_ENTITY_COUNT,
    ensures
        found_within(BenchmarkState::initial(), limit, doublings + 9),
{
    let state = BenchmarkState::initial();
    let exceeds = state.entity_count > limit;
    let t = state.tightened(exceeds);
    let next = state.adjusted(exceeds);
    lemma_pow2_pos(doublings);
    assert(INITIAL_ENTITY_COUNT <= INITIAL_ENTITY_COUNT * pow2(doublings)) by (nonlinear_arith)
        requires
            pow2(doublings) >= 1,
    ;
    if exceeds {
        assert(!t.converged());
        assert(next.entity_count == t.midpoint());
        lemma2_to64();
        lemma_bisection_converges(next, limit, 7, 99);
        lemma_more_cycles(next, limit, 8, (doublings + 8) as nat);
    } else {
        if doublings == 0 {
            lemma2_to64();
            assert(false);
        }
        lemma_pow2_unfold(doublings);
        lemma_pow2_pos((doublings - 1) as nat);
        assert(INITIAL_ENTITY_COUNT * pow2(doublings) == (2 * INITIAL_ENTITY_COUNT) * pow2(
            (doublings - 1) as nat,
        ) && 2 * INITIAL_ENTITY_COUNT <= INITIAL_ENTITY_COUNT * pow2(doublings))
            by (nonlinear_arith)
            requires
                pow2((doublings - 1) as nat) >= 1,
                pow2(doublings) == 2 * pow2((doublings - 1) as nat),
        ;
        assert(!t.converged());
        assert(next.entity_count == 2 * INITIAL_ENTITY_COUNT);
        lemma_growth_converges(next, limit, (doublings - 1) as nat);
        lemma_more_cycles(next, limit, (doublings + 7) as nat, (doublings + 8) as nat);
    }
}

/// For every crossover from `MIN_ENTITY_COUNT` up to 1,310,719,999
/// entities the search converges within 26 adjustments.
pub proof fn lemma_search_converges_within_26(limit: int)
    requires
        MIN_ENTITY_COUNT <= limit < 1_310_720_000,
    ensures
        found_within(BenchmarkState::initial(), limit, 26),
{
    lemma2_to64();
    assert(INITIAL_ENTITY_COUNT * pow2(17) == 1_310_720_000) by (nonlinear_arith)
        requires
            pow2(17) == 0x20000,
    ;
    lemma_search_converges(limit, 17);
}

/// What is left of the search after a probe: twice the gap of the
/// tightened bounds, and one more if the probe met the target.
pub open spec fn remaining(state: BenchmarkState, exceeds: bool) -> int {
    2 * state.tightened(exceeds).gap() + if exceeds {
        0int
    } else {
        1int
    }
}

/// Whatever the probes turn out to be, the search ends: an adjustment
/// that does not converge leaves strictly less of the search, however the
/// next probe turns out.
pub proof fn lemma_search_progress(state: BenchmarkState, exceeds: bool, then_exceeds: bool)
    requires
        state.bounds_ordered(),
        MIN_ENTITY_COUNT <= state.search_low,
        !state.tightened(exceeds).converged(),
    ensures
        state.adjusted(exceeds).bounds_ordered(),
        MIN_ENTITY_COUNT <= state.adjusted(exceeds).search_low,
        0 <= remaining(state.adjusted(exceeds), then_exceeds) < remaining(state, exceeds),
{
}

} // verus!
