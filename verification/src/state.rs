//! Phases, workload identities and the state of the breakdown search.

use vstd::prelude::*;

use crate::config::{INITIAL_ENTITY_COUNT, MAX_ENTITY_COUNT, MIN_ENTITY_COUNT};

verus! {

/// What the application as a whole is doing.
#[derive(Debug, Clone, Copy, PartialEq, Eq, Hash, Structural)]
pub enum AppState {
    /// Waiting for a command; nothing has been measured yet.
    Menu,
    /// A benchmark is running.
    Running,
    /// A benchmark was stopped.
    Paused,
    /// An automated suite has finished and its results are on show.
    Results,
}

impl Default for AppState {
    fn default() -> (state: AppState)
        ensures
            state == AppState::Menu,
    {
        AppState::Menu
    }
}

/// Phase of the measurement cycle.
#[derive(Debug, Clone, Copy, PartialEq, Eq, Hash, Structural)]
pub enum BenchmarkPhase {
    /// No measurement is active.
    Idle,
    /// Ticks pass unmeasured while caches and allocators settle.
    WarmUp,
    /// Each tick contributes one sample.
    Sampling,
    /// The window is complete; the next entity count is being decided.
    Adjusting,
    /// The breakdown point of the current workload is known.
    Complete,
}

impl Default for BenchmarkPhase {
    fn default() -> (phase: BenchmarkPhase)
        ensures
            phase == BenchmarkPhase::Idle,
    {
        BenchmarkPhase::Idle
    }
}

/// Identity of a workload.
#[derive(Debug, Clone, Copy, PartialEq, Eq, Hash, Structural)]
pub enum SelectedWorkload {
    SimpleIteration,
    MultiComponentRead,
    PositionVelocity,
    SpawnDespawn,
    ComponentAddRemove,
    FragmentedArchetypes,
}

impl Default for SelectedWorkload {
    fn default() -> (workload: SelectedWorkload)
        ensures
            workload == SelectedWorkload::SimpleIteration,
    {
        SelectedWorkload::SimpleIteration
    }
}

/// Number of registered workloads.
pub const WORKLOAD_COUNT: usize = 6;

impl SelectedWorkload {
    /// The registered workloads, in registration order.
    pub open spec fn registry() -> Seq<SelectedWorkload> {
        seq![
            SelectedWorkload::SimpleIteration,
            SelectedWorkload::MultiComponentRead,
            SelectedWorkload::PositionVelocity,
            SelectedWorkload::SpawnDespawn,
            SelectedWorkload::ComponentAddRemove,
            SelectedWorkload::FragmentedArchetypes,
        ]
    }

    /// Position of this workload in the registry.
    pub open spec fn position(self) -> int {
        match self {
            SelectedWorkload::SimpleIteration => 0,
            SelectedWorkload::MultiComponentRead => 1,
            SelectedWorkload::PositionVelocity => 2,
            SelectedWorkload::SpawnDespawn => 3,
            SelectedWorkload::ComponentAddRemove => 4,
            SelectedWorkload::FragmentedArchetypes => 5,
        }
    }

    /// Display name, as a sequence of characters.
    pub open spec fn name_text(self) -> Seq<char> {
        match self {
            SelectedWorkload::SimpleIteration => "Simple Iteration"@,
            SelectedWorkload::MultiComponentRead => "Multi-Component Read"@,
            SelectedWorkload::PositionVelocity => "Position/Velocity Update"@,
            SelectedWorkload::SpawnDespawn => "Spawn/Despawn Churn"@,
            SelectedWorkload::ComponentAddRemove => "Component Add/Remove"@,
            SelectedWorkload::FragmentedArchetypes => "Fragmented Archetypes"@,
        }
    }

    /// One-line description, as a sequence of characters.
    pub open spec fn description_text(self) -> Seq<char> {
        match self {
            SelectedWorkload::SimpleIteration => "Read-only iteration over single component"@,
            SelectedWorkload::MultiComponentRead => "Read 3 components per entity"@,
            SelectedWorkload::PositionVelocity => "Classic game loop: position += velocity"@,
            SelectedWorkload::SpawnDespawn => "Spawn and despawn entities each frame"@,
            SelectedWorkload::ComponentAddRemove => "Add/remove components on existing entities"@,
            SelectedWorkload::FragmentedArchetypes => "Entities spread across many archetypes"@,
        }
    }

    /// The key that selects this workload.
    pub open spec fn key(self) -> char {
        match self {
            SelectedWorkload::SimpleIteration => '1',
            SelectedWorkload::MultiComponentRead => '2',
            SelectedWorkload::PositionVelocity => '3',
            SelectedWorkload::SpawnDespawn => '4',
            SelectedWorkload::ComponentAddRemove => '5',
            SelectedWorkload::FragmentedArchetypes => '6',
        }
    }

    /// Display name.
    pub fn name(&self) -> (text: &'static str)
        ensures
            text@ == self.name_text(),
    {
        match self {
            SelectedWorkload::SimpleIteration => "Simple Iteration",
            SelectedWorkload::MultiComponentRead => "Multi-Component Read",
            SelectedWorkload::PositionVelocity => "Position/Velocity Update",
            SelectedWorkload::SpawnDespawn => "Spawn/Despawn Churn",
            SelectedWorkload::ComponentAddRemove => "Component Add/Remove",
            SelectedWorkload::FragmentedArchetypes => "Fragmented Archetypes",
        }
    }

    /// One-line description.
    pub fn description(&self) -> (text: &'static str)
        ensures
            text@ == self.description_text(),
    {
        match self {
            SelectedWorkload::SimpleIteration => "Read-only iteration over single component",
            SelectedWorkload::MultiComponentRead => "Read 3 components per entity",
            SelectedWorkload::PositionVelocity => "Classic game loop: position += velocity",
            SelectedWorkload::SpawnDespawn => "Spawn and despawn entities each frame",
            SelectedWorkload::ComponentAddRemove => "Add/remove components on existing entities",
            SelectedWorkload::FragmentedArchetypes => "Entities spread across many archetypes",
        }
    }

    /// The key that selects this workload, as shown in hints.
    pub fn key_hint(&self) -> (text: &'static str)
        ensures
            text@ == seq![self.key()],
    {
        proof {
            reveal_strlit("1");
            reveal_strlit("2");
            reveal_strlit("3");
            reveal_strlit("4");
            reveal_strlit("5");
            reveal_strlit("6");
        }
        let text: &'static str = match self {
            SelectedWorkload::SimpleIteration => "1",
            SelectedWorkload::MultiComponentRead => "2",
            SelectedWorkload::PositionVelocity => "3",
            SelectedWorkload::SpawnDespawn => "4",
            SelectedWorkload::ComponentAddRemove => "5",
            SelectedWorkload::FragmentedArchetypes => "6",
        };
        assert(text@ =~= seq![self.key()]);
        text
    }

    /// The registered workloads, in registration order.
    pub fn all() -> (workloads: &'static [SelectedWorkload])
        ensures
            workloads@ == Self::registry(),
    {
        let workloads: &'static [SelectedWorkload] = &[
            SelectedWorkload::SimpleIteration,
            SelectedWorkload::MultiComponentRead,
            SelectedWorkload::PositionVelocity,
            SelectedWorkload::SpawnDespawn,
            SelectedWorkload::ComponentAddRemove,
            SelectedWorkload::FragmentedArchetypes,
        ];
        assert(workloads@ =~= Self::registry());
        workloads
    }

    /// The workload at `index` of the registry, if there is one.
    pub fn at(index: usize) -> (workload: Option<SelectedWorkload>)
        ensures
            index < WORKLOAD_COUNT ==> workload == Some(Self::registry()[index as int]),
            index >= WORKLOAD_COUNT ==> workload.is_none(),
    {
        match index {
            0 => Some(SelectedWorkload::SimpleIteration),
            1 => Some(SelectedWorkload::MultiComponentRead),
            2 => Some(SelectedWorkload::PositionVelocity),
            3 => Some(SelectedWorkload::SpawnDespawn),
            4 => Some(SelectedWorkload::ComponentAddRemove),
            5 => Some(SelectedWorkload::FragmentedArchetypes),
            _ => None,
        }
    }

    /// The workload that `key` selects: the digits `1` to `6` select the
    /// workloads in registration order, every other key selects none.
    pub fn from_key(key: char) -> (workload: Option<SelectedWorkload>)
        ensures
            match workload {
                Some(w) => w.key() == key,
                None => forall|w: SelectedWorkload| w.key() != key,
            },
    {
        match key {
            '1' => Some(SelectedWorkload::SimpleIteration),
            '2' => Some(SelectedWorkload::MultiComponentRead),
            '3' => Some(SelectedWorkload::PositionVelocity),
            '4' => Some(SelectedWorkload::SpawnDespawn),
            '5' => Some(SelectedWorkload::ComponentAddRemove),
            '6' => Some(SelectedWorkload::FragmentedArchetypes),
            _ => None,
        }
    }
}

/// Every workload stands in the registry at its own position, and its key
/// is the digit one above that position.
pub proof fn lemma_registry_positions(workload: SelectedWorkload)
    ensures
        SelectedWorkload::registry().len() == WORKLOAD_COUNT,
        0 <= workload.position() < WORKLOAD_COUNT,
        SelectedWorkload::registry()[workload.position()] == workload,
        workload.key() as int == '1' as int + workload.position(),
{
}

/// State of the breakdown search for one workload.
#[derive(Debug, Clone, Copy, PartialEq, Eq, Structural)]
pub struct BenchmarkState {
    /// Entity count of the current probe.
    pub entity_count: usize,
    /// Largest entity count known to meet the target.
    pub search_low: usize,
    /// Smallest entity count known to miss the target, or
    /// `MAX_ENTITY_COUNT` while no probe has missed it.
    pub search_high: usize,
    /// Ticks elapsed in the current phase.
    pub frame_counter: usize,
    /// Whether an automated suite is running.
    pub automated: bool,
    /// Position of the current workload in the suite.
    pub suite_index: usize,
}

impl BenchmarkState {
    /// The state before any probe.
    pub open spec fn initial() -> BenchmarkState {
        BenchmarkState {
            entity_count: INITIAL_ENTITY_COUNT,
            search_low: MIN_ENTITY_COUNT,
            search_high: MAX_ENTITY_COUNT,
            frame_counter: 0,
            automated: false,
            suite_index: 0,
        }
    }

    /// The search bounds enclose the entity count and the ceiling is at
    /// most the sentinel.
    pub open spec fn bounds_ordered(self) -> bool {
        self.search_low <= self.entity_count <= self.search_high <= MAX_ENTITY_COUNT
    }

    /// This state with the search started over; suite progress is kept.
    pub open spec fn restarted(self) -> BenchmarkState {
        BenchmarkState {
            entity_count: INITIAL_ENTITY_COUNT,
            search_low: MIN_ENTITY_COUNT,
            search_high: MAX_ENTITY_COUNT,
            frame_counter: 0,
            automated: self.automated,
            suite_index: self.suite_index,
        }
    }

    /// Whether the search bounds enclose the entity count and the ceiling
    /// is at most the sentinel.
    pub fn has_ordered_bounds(&self) -> (ok: bool)
        ensures
            ok == self.bounds_ordered(),
    {
        self.search_low <= self.entity_count && self.entity_count <= self.search_high
            && self.search_high <= MAX_ENTITY_COUNT
    }

    /// Starts the search over; suite progress is kept.
    pub fn reset(&mut self)
        ensures
            *final(self) == old(self).restarted(),
            final(self).bounds_ordered(),
    {
        self.entity_count = INITIAL_ENTITY_COUNT;
        self.search_low = MIN_ENTITY_COUNT;
        self.search_high = MAX_ENTITY_COUNT;
        self.frame_counter = 0;
    }

    /// Starts the search over for another workload; suite progress is kept.
    pub fn reset_for_new_workload(&mut self)
        ensures
            *final(self) == old(self).restarted(),
            final(self).bounds_ordered(),
    {
        self.entity_count = INITIAL_ENTITY_COUNT;
        self.search_low = MIN_ENTITY_COUNT;
        self.search_high = MAX_ENTITY_COUNT;
        self.frame_counter = 0;
    }
}

impl Default for BenchmarkState {
    fn default() -> (state: BenchmarkState)
        ensures
            state == BenchmarkState::initial(),
            state.bounds_ordered(),
    {
        BenchmarkState {
            entity_count: INITIAL_ENTITY_COUNT,
            search_low: MIN_ENTITY_COUNT,
            search_high: MAX_ENTITY_COUNT,
            frame_counter: 0,
            automated: false,
            suite_index: 0,
        }
    }
}

} // verus!
