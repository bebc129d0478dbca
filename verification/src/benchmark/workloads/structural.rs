//! Structural change: spawn/despawn churn and component toggling.

use vstd::prelude::*;

use crate::components::{Counter, SecondaryToggle, ToggleComponent};

verus! {

/// Share of the target population that is replaced every tick, in percent.
pub const CHURN_PERCENT: usize = 1;

/// Smallest number of entities replaced in a tick.
pub const MIN_CHURN: usize = 10;

/// Number of ticks between two rounds of component toggling.
pub const TOGGLE_INTERVAL: usize = 10;

/// Largest number of entities toggled in one round.
pub const MAX_TOGGLES: usize = 1000;

/// Number of ticks between two rounds of multi-component changes.
pub const MULTI_INTERVAL: usize = 30;

/// Tick within each interval at which the multi-component removal runs.
pub const MULTI_REMOVE_OFFSET: usize = 15;

/// Largest number of entities changed in one multi-component round.
pub const MULTI_BATCH: usize = 100;

/// Number of ticks between two batch respawns.
pub const BATCH_INTERVAL: usize = 60;

/// `value` cut down to its low 32 bits.
pub open spec fn low_32(value: int) -> u32 {
    (value % 0x1_0000_0000) as u32
}

/// The successor of a tick counter, wrapping around at `usize::MAX`.
pub open spec fn next_frame(frame: usize) -> usize {
    if frame == usize::MAX {
        0
    } else {
        (frame + 1) as usize
    }
}

/// `value` cut down to its low 32 bits.
fn truncate_32(value: usize) -> (low: u32)
    ensures
        low == low_32(value as int),
{
    let wide: u64 = value as u64;
    (wide % 0x1_0000_0000) as u32
}

/// State of the spawn/despawn churn workload.
#[derive(Debug, Clone, Copy, PartialEq, Eq, Structural)]
pub struct SpawnDespawnState {
    pub target_count: usize,
    pub current_count: usize,
    /// Share of the target population replaced every tick, in percent.
    pub churn_percent: usize,
    pub initialized: bool,
}

impl Default for SpawnDespawnState {
    fn default() -> (state: SpawnDespawnState)
        ensures
            state == (SpawnDespawnState {
                target_count: 0,
                current_count: 0,
                churn_percent: 0,
                initialized: false,
            }),
    {
        SpawnDespawnState { target_count: 0, current_count: 0, churn_percent: 0, initialized: false }
    }
}

/// What one tick of churn does: `despawn` entities leave, then `spawn`
/// fresh ones enter.
#[derive(Debug, Clone, Copy, PartialEq, Eq, Structural)]
pub struct ChurnPlan {
    pub despawn: usize,
    pub spawn: usize,
}

impl SpawnDespawnState {
    /// Number of entities replaced every tick: the churn share of the
    /// target population, rounded down, and at least `MIN_CHURN`.
    pub open spec fn churn(self) -> int {
        let share = self.target_count * self.churn_percent / 100;
        if share < MIN_CHURN {
            MIN_CHURN as int
        } else {
            share
        }
    }

    /// What a tick of churn does with `live` entities present: nothing
    /// before setup; after it the churn count is spawned, and as many
    /// entities despawned as are there to despawn.
    pub open spec fn plan(self, live: usize) -> ChurnPlan {
        if !self.initialized {
            ChurnPlan { despawn: 0, spawn: 0 }
        } else {
            ChurnPlan {
                despawn: if live < self.churn() {
                    live
                } else {
                    self.churn() as usize
                },
                spawn: self.churn() as usize,
            }
        }
    }
}

/// Sets the churn workload up for `count` entities, all of which are to be
/// spawned as one batch.
pub fn spawn_despawn_setup(state: &mut SpawnDespawnState, count: usize)
    ensures
        *final(state) == (SpawnDespawnState {
            target_count: count,
            current_count: count,
            churn_percent: CHURN_PERCENT,
            initialized: true,
        }),
{
    state.target_count = count;
    state.churn_percent = CHURN_PERCENT;
    state.initialized = true;
    state.current_count = count;
}

/// Plans one tick of churn with `live` entities present.
pub fn spawn_despawn_churn_system(state: &SpawnDespawnState, live: usize) -> (plan: ChurnPlan)
    requires
        state.churn_percent <= 100,
    ensures
        plan == state.plan(live),
{
    if !state.initialized {
        return ChurnPlan { despawn: 0, spawn: 0 };
    }
    assert(state.target_count * state.churn_percent <= 0xFFFF_FFFF_FFFF_FFFF * 100
        && state.target_count * state.churn_percent / 100 <= state.target_count)
        by (nonlinear_arith)
        requires
            0 <= state.target_count <= 0xFFFF_FFFF_FFFF_FFFF,
            0 <= state.churn_percent <= 100,
    ;
    let share: u128 = (state.target_count as u128) * (state.churn_percent as u128) / 100;
    let churn: usize = if share < MIN_CHURN as u128 {
        MIN_CHURN
    } else {
        share as usize
    };
    ChurnPlan {
        despawn: if live < churn {
            live
        } else {
            churn
        },
        spawn: churn,
    }
}

/// State of the component add/remove workload.
#[derive(Debug, Clone, Copy, PartialEq, Eq, Structural)]
pub struct ComponentToggleState {
    pub initialized: bool,
    pub frame_counter: usize,
}

impl Default for ComponentToggleState {
    fn default() -> (state: ComponentToggleState)
        ensures
            state == (ComponentToggleState { initialized: false, frame_counter: 0 }),
    {
        ComponentToggleState { initialized: false, frame_counter: 0 }
    }
}

/// The entities of the component add/remove workload, in two batches.
#[derive(Debug, Clone, PartialEq, Eq)]
pub struct ToggleBatches {
    /// The first half, each with a toggle component.
    pub with_toggle: Vec<(Counter, ToggleComponent)>,
    /// The rest, without one.
    pub without_toggle: Vec<Counter>,
}

/// The first batch for `count` entities: entity `i` below half the count
/// carries its index as counter and, cut to 32 bits, as toggle value.
pub open spec fn toggled_half(count: usize) -> Seq<(Counter, ToggleComponent)> {
    Seq::new(
        (count / 2) as nat,
        |i: int| (Counter { value: i as u64 }, ToggleComponent { value: low_32(i) }),
    )
}

/// The second batch for `count` entities: entity `i` from half the count
/// on carries its index as counter.
pub open spec fn plain_half(count: usize) -> Seq<Counter> {
    Seq::new((count - count / 2) as nat, |k: int| Counter { value: (count / 2 + k) as u64 })
}

/// Computes the entities of the component add/remove workload for `count`
/// entities and marks the workload as set up.
pub fn spawn_component_toggle_entities(state: &mut ComponentToggleState, count: usize) -> (batches:
    ToggleBatches)
    ensures
        batches.with_toggle@ == toggled_half(count),
        batches.without_toggle@ == plain_half(count),
        *final(state) == (ComponentToggleState { initialized: true, frame_counter: 0 }),
{
    let half: usize = count / 2;
    let mut with_toggle: Vec<(Counter, ToggleComponent)> = Vec::with_capacity(half);
    let mut i: usize = 0;
    while i < half
        invariant
            i <= half,
            half == count / 2,
            with_toggle@ == Seq::new(
                i as nat,
                |k: int| (Counter { value: k as u64 }, ToggleComponent { value: low_32(k) }),
            ),
        decreases half - i,
    {
        with_toggle.push((Counter { value: i as u64 }, ToggleComponent { value: truncate_32(i) }));
        assert(with_toggle@ =~= Seq::new(
            (i + 1) as nat,
            |k: int| (Counter { value: k as u64 }, ToggleComponent { value: low_32(k) }),
        ));
        i += 1;
    }
    let mut without_toggle: Vec<Counter> = Vec::with_capacity(count - half);
    let mut j: usize = half;
    while j < count
        invariant
            half <= j <= count,
            half == count / 2,
            without_toggle@ == Seq::new(
                (j - half) as nat,
                |k: int| Counter { value: (count / 2 + k) as u64 },
            ),
        decreases count - j,
    {
        without_toggle.push(Counter { value: j as u64 });
        assert(without_toggle@ =~= Seq::new(
            (j + 1 - half) as nat,
            |k: int| Counter { value: (count / 2 + k) as u64 },
        ));
        j += 1;
    }
    state.initialized = true;
    state.frame_counter = 0;
    ToggleBatches { with_toggle, without_toggle }
}

/// What one round of toggling does: the first `remove` entities with a
/// toggle component lose it, and the first `add` entities without one get
/// one that holds `value`.
#[derive(Debug, Clone, Copy, PartialEq, Eq, Structural)]
pub struct TogglePlan {
    pub remove: usize,
    pub add: usize,
    pub value: u32,
}

impl ComponentToggleState {
    /// The state after one tick: a workload that is set up counts it.
    pub open spec fn ticked(self) -> ComponentToggleState {
        if self.initialized {
            ComponentToggleState { frame_counter: next_frame(self.frame_counter), ..self }
        } else {
            self
        }
    }

    /// The round of toggling that is due after this tick was counted, with
    /// `with_toggle` entities that carry a toggle component and
    /// `without_toggle` that carry none: a round is due every
    /// `TOGGLE_INTERVAL` ticks and moves at most `MAX_TOGGLES` entities
    /// each way.
    pub open spec fn round(self, with_toggle: usize, without_toggle: usize) -> Option<TogglePlan> {
        if !self.initialized || self.frame_counter % TOGGLE_INTERVAL != 0 {
            None
        } else {
            let quota = if with_toggle < MAX_TOGGLES {
                with_toggle
            } else {
                MAX_TOGGLES
            };
            Some(
                TogglePlan {
                    remove: quota,
                    add: if without_toggle < quota {
                        without_toggle
                    } else {
                        quota
                    },
                    value: low_32(self.frame_counter as int),
                },
            )
        }
    }
}

/// Counts one tick of the component add/remove workload and plans the
/// round of toggling that is due, if any.
pub fn component_add_remove_system(
    state: &mut ComponentToggleState,
    with_toggle: usize,
    without_toggle: usize,
) -> (plan: Option<TogglePlan>)
    ensures
        *final(state) == old(state).ticked(),
        plan == final(state).round(with_toggle, without_toggle),
{
    if !state.initialized {
        return None;
    }
    state.frame_counter = state.frame_counter.wrapping_add(1);
    if state.frame_counter % TOGGLE_INTERVAL != 0 {
        return None;
    }
    let quota: usize = if with_toggle < MAX_TOGGLES {
        with_toggle
    } else {
        MAX_TOGGLES
    };
    Some(
        TogglePlan {
            remove: quota,
            add: if without_toggle < quota {
                without_toggle
            } else {
                quota
            },
            value: truncate_32(state.frame_counter),
        },
    )
}

/// Counts one tick and tells whether a batch respawn is due: every
/// `BATCH_INTERVAL` ticks.
pub fn batch_spawn_system(frame: &mut usize) -> (due: bool)
    ensures
        *final(frame) == next_frame(*old(frame)),
        due == (*final(frame) % BATCH_INTERVAL == 0),
{
    *frame = frame.wrapping_add(1);
    *frame % BATCH_INTERVAL == 0
}

/// The components that a multi-component insertion adds to an entity.
#[derive(Debug, Clone, Copy, PartialEq, Eq, Structural)]
pub struct MultiInsert {
    /// Number of entities that get the components.
    pub entities: usize,
    pub secondary: SecondaryToggle,
    pub toggle: ToggleComponent,
}

/// The insertion that is due at tick `frame` with `candidates` entities
/// that lack the components: every `MULTI_INTERVAL` ticks, on at most
/// `MULTI_BATCH` entities.
pub open spec fn insertion_due(frame: usize, candidates: usize) -> Option<MultiInsert> {
    if frame % MULTI_INTERVAL != 0 {
        None
    } else {
        Some(
            MultiInsert {
                entities: if candidates < MULTI_BATCH {
                    candidates
                } else {
                    MULTI_BATCH
                },
                secondary: SecondaryToggle { active: true },
                toggle: ToggleComponent { value: low_32(frame as int) },
            },
        )
    }
}

/// Counts one tick and plans the multi-component insertion that is due, if
/// any.
pub fn multi_component_insert_system(frame: &mut usize, candidates: usize) -> (plan: Option<
    MultiInsert,
>)
    ensures
        *final(frame) == next_frame(*old(frame)),
        plan == insertion_due(*final(frame), candidates),
{
    *frame = frame.wrapping_add(1);
    if *frame % MULTI_INTERVAL != 0 {
        return None;
    }
    Some(
        MultiInsert {
            entities: if candidates < MULTI_BATCH {
                candidates
            } else {
                MULTI_BATCH
            },
            secondary: SecondaryToggle { active: true },
            toggle: ToggleComponent { value: truncate_32(*frame) },
        },
    )
}

/// Counts one tick and tells how many of `candidates` entities lose both
/// toggle components: at most `MULTI_BATCH`, at tick `MULTI_REMOVE_OFFSET`
/// of every interval of `MULTI_INTERVAL` ticks, none at other ticks.
pub fn multi_component_remove_system(frame: &mut usize, candidates: usize) -> (entities: usize)
    ensures
        *final(frame) == next_frame(*old(frame)),
        *final(frame) % MULTI_INTERVAL != MULTI_REMOVE_OFFSET ==> entities == 0,
        *final(frame) % MULTI_INTERVAL == MULTI_REMOVE_OFFSET ==> entities == if candidates
            < MULTI_BATCH {
            candidates
        } else {
            MULTI_BATCH
        },
{
    *frame = frame.wrapping_add(1);
    if *frame % MULTI_INTERVAL != MULTI_REMOVE_OFFSET {
        return 0;
    }
    if candidates < MULTI_BATCH {
        candidates
    } else {
        MULTI_BATCH
    }
}

} // verus!
