//! The breakdown search: exponential growth until a probe misses the
//! target, then bisection between the last probe that met it and the first
//! that missed it.

use vstd::prelude::*;

use crate::config::{
    CONVERGENCE_PERCENT, GROWTH_MULTIPLIER, MAX_ENTITY_COUNT, MIN_CONVERGENCE_GAP,
    MIN_ENTITY_COUNT,
};
use crate::state::BenchmarkState;

verus! {

/// What the search decides after a sampling window.
#[derive(Debug, Clone, Copy, PartialEq, Eq, Structural)]
pub enum Adjustment {
    /// The search is over: `breakdown_point` is the largest entity count
    /// known to meet the target.
    Converged { breakdown_point: usize },
    /// The search goes on with a probe at `entity_count`.
    Probe { entity_count: usize },
}

/// `count` held to the configured limits.
pub open spec fn clamp_count(count: int) -> int {
    if count < MIN_ENTITY_COUNT {
        MIN_ENTITY_COUNT as int
    } else if count > MAX_ENTITY_COUNT {
        MAX_ENTITY_COUNT as int
    } else {
        count
    }
}

impl BenchmarkState {
    /// The bounds after a probe at the current entity count: a probe that
    /// exceeds the target lowers the ceiling to it, any other raises the
    /// floor to it.
    pub open spec fn tightened(self, exceeds: bool) -> BenchmarkState {
        if exceeds {
            BenchmarkState { search_high: self.entity_count, ..self }
        } else {
            BenchmarkState { search_low: self.entity_count, ..self }
        }
    }

    /// Distance between the search bounds.
    pub open spec fn gap(self) -> int {
        self.search_high - self.search_low
    }

    /// Whether the bounds are close enough to stop: the gap is below
    /// `CONVERGENCE_PERCENT` percent of the entity count, or below
    /// `MIN_CONVERGENCE_GAP`.  With an entity count of zero only the
    /// absolute test applies.
    pub open spec fn converged(self) -> bool {
        ||| self.entity_count > 0 && self.gap() * 100 < CONVERGENCE_PERCENT * self.entity_count
        ||| self.gap() < MIN_CONVERGENCE_GAP
    }

    /// Whether the next probe grows the entity count: the last probe met
    /// the target and no probe has constrained the ceiling.  An entity
    /// count of zero cannot grow and is bisected.
    pub open spec fn grows(self, exceeds: bool) -> bool {
        !exceeds && self.search_high == MAX_ENTITY_COUNT && self.entity_count > 0
    }

    /// Midpoint of the search bounds, rounded down.
    pub open spec fn midpoint(self) -> int {
        (self.search_low + self.search_high) / 2
    }

    /// The entity count of the next probe, for bounds that are already
    /// tightened and not converged.
    pub open spec fn next_probe(self, exceeds: bool) -> int {
        if self.grows(exceeds) {
            clamp_count(self.entity_count * GROWTH_MULTIPLIER)
        } else {
            clamp_count(self.midpoint())
        }
    }

    /// The decision after a probe at the current entity count.
    pub open spec fn adjustment(self, exceeds: bool) -> Adjustment {
        let t = self.tightened(exceeds);
        if t.converged() {
            Adjustment::Converged { breakdown_point: t.search_low }
        } else {
            Adjustment::Probe { entity_count: t.next_probe(exceeds) as usize }
        }
    }

    /// The state after a probe at the current entity count: the bounds
    /// are tightened, and unless the search is over the entity count moves
    /// to the next probe.
    pub open spec fn adjusted(self, exceeds: bool) -> BenchmarkState {
        let t = self.tightened(exceeds);
        if t.converged() {
            t
        } else {
            BenchmarkState { entity_count: t.next_probe(exceeds) as usize, ..t }
        }
    }

    /// Takes the outcome of the probe at the current entity count into the
    /// search and decides how it goes on.
    ///
    /// On convergence the breakdown point is the floor of the tightened
    /// bounds: the probe itself if it met the target, else the last probe
    /// that did.
    pub fn adjust(&mut self, exceeds: bool) -> (decision: Adjustment)
        requires
            old(self).bounds_ordered(),
        ensures
            decision == old(self).adjustment(exceeds),
            *final(self) == old(self).adjusted(exceeds),
            final(self).bounds_ordered(),
    {
        if exceeds {
            self.search_high = self.entity_count;
        } else {
            self.search_low = self.entity_count;
        }
        let gap: usize = self.search_high - self.search_low;
        let within_percent: bool = self.entity_count > 0 && (gap as u128) * 100 < (
        CONVERGENCE_PERCENT as u128) * (self.entity_count as u128);
        if within_percent || gap < MIN_CONVERGENCE_GAP {
            return Adjustment::Converged { breakdown_point: self.search_low };
        }
        let proposed: usize = if !exceeds && self.search_high == MAX_ENTITY_COUNT
            && self.entity_count > 0 {
            self.entity_count * GROWTH_MULTIPLIER
        } else {
            assert((self.search_low + self.search_high) / 2 == self.search_low + gap / 2);
            self.search_low + gap / 2
        };
        let next: usize = if proposed < MIN_ENTITY_COUNT {
            MIN_ENTITY_COUNT
        } else if proposed > MAX_ENTITY_COUNT {
            MAX_ENTITY_COUNT
        } else {
            proposed
        };
        self.entity_count = next;
        Adjustment::Probe { entity_count: next }
    }
}

/// However a probe turns out, the breakdown point that a converged search
/// reports lies within the bounds it started from, and a search that goes
/// on probes within its tightened bounds.
pub proof fn lemma_adjustment_within_bounds(state: BenchmarkState, exceeds: bool)
    requires
        state.bounds_ordered(),
    ensures
        state.adjusted(exceeds).bounds_ordered(),
        state.search_low <= state.adjusted(exceeds).search_low,
        state.adjusted(exceeds).search_high <= state.search_high,
        match state.adjustment(exceeds) {
            Adjustment::Converged { breakdown_point } => state.search_low <= breakdown_point
                <= state.search_high,
            Adjustment::Probe { entity_count } => state.adjusted(exceeds).search_low
                <= entity_count <= state.adjusted(exceeds).search_high,
        },
{
}

} // verus!
