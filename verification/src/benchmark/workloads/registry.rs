//! The registry: which spawn and process operation belongs to which
//! workload, and when each runs.

use vstd::prelude::*;

use crate::benchmark::runner::SpawnEntitiesRequest;
use crate::state::{AppState, SelectedWorkload};

verus! {

/// The two steps of a tick; every spawn operation runs before every
/// process operation.
#[derive(Debug, Clone, Copy, PartialEq, Eq, Hash, Structural)]
pub enum BenchmarkSet {
    /// Operations that create entities.
    Spawn,
    /// Operations that visit or change entities.
    Process,
}

/// The registered operations.
#[derive(Debug, Clone, Copy, PartialEq, Eq, Hash, Structural)]
pub enum WorkloadSystem {
    SpawnSimpleIteration,
    SimpleIteration,
    SpawnMultiComponent,
    MultiComponentRead,
    SpawnPositionVelocity,
    PositionVelocity,
    SpawnDespawnSetup,
    SpawnDespawnChurn,
    SpawnComponentToggle,
    ComponentAddRemove,
    SpawnFragmented,
    FragmentedIteration,
}

impl WorkloadSystem {
    /// The step of the tick in which this operation runs.
    pub open spec fn step(self) -> BenchmarkSet {
        match self {
            WorkloadSystem::SpawnSimpleIteration => BenchmarkSet::Spawn,
            WorkloadSystem::SpawnMultiComponent => BenchmarkSet::Spawn,
            WorkloadSystem::SpawnPositionVelocity => BenchmarkSet::Spawn,
            WorkloadSystem::SpawnDespawnSetup => BenchmarkSet::Spawn,
            WorkloadSystem::SpawnComponentToggle => BenchmarkSet::Spawn,
            WorkloadSystem::SpawnFragmented => BenchmarkSet::Spawn,
            _ => BenchmarkSet::Process,
        }
    }

    /// The workload this operation belongs to.
    pub open spec fn owner(self) -> SelectedWorkload {
        match self {
            WorkloadSystem::SpawnSimpleIteration => SelectedWorkload::SimpleIteration,
            WorkloadSystem::SimpleIteration => SelectedWorkload::SimpleIteration,
            WorkloadSystem::SpawnMultiComponent => SelectedWorkload::MultiComponentRead,
            WorkloadSystem::MultiComponentRead => SelectedWorkload::MultiComponentRead,
            WorkloadSystem::SpawnPositionVelocity => SelectedWorkload::PositionVelocity,
            WorkloadSystem::PositionVelocity => SelectedWorkload::PositionVelocity,
            WorkloadSystem::SpawnDespawnSetup => SelectedWorkload::SpawnDespawn,
            WorkloadSystem::SpawnDespawnChurn => SelectedWorkload::SpawnDespawn,
            WorkloadSystem::SpawnComponentToggle => SelectedWorkload::ComponentAddRemove,
            WorkloadSystem::ComponentAddRemove => SelectedWorkload::ComponentAddRemove,
            WorkloadSystem::SpawnFragmented => SelectedWorkload::FragmentedArchetypes,
            WorkloadSystem::FragmentedIteration => SelectedWorkload::FragmentedArchetypes,
        }
    }

    /// Whether this operation runs in a tick: its workload is the active
    /// one and a benchmark is running.
    pub open spec fn enabled(self, active: SelectedWorkload, app_state: AppState) -> bool {
        self.owner() == active && app_state == AppState::Running
    }

    /// The step of the tick in which this operation runs.
    pub fn set(&self) -> (step: BenchmarkSet)
        ensures
            step == self.step(),
    {
        match self {
            WorkloadSystem::SpawnSimpleIteration => BenchmarkSet::Spawn,
            WorkloadSystem::SpawnMultiComponent => BenchmarkSet::Spawn,
            WorkloadSystem::SpawnPositionVelocity => BenchmarkSet::Spawn,
            WorkloadSystem::SpawnDespawnSetup => BenchmarkSet::Spawn,
            WorkloadSystem::SpawnComponentToggle => BenchmarkSet::Spawn,
            WorkloadSystem::SpawnFragmented => BenchmarkSet::Spawn,
            _ => BenchmarkSet::Process,
        }
    }

    /// The workload this operation belongs to.
    pub fn workload(&self) -> (owner: SelectedWorkload)
        ensures
            owner == self.owner(),
    {
        match self {
            WorkloadSystem::SpawnSimpleIteration => SelectedWorkload::SimpleIteration,
            WorkloadSystem::SimpleIteration => SelectedWorkload::SimpleIteration,
            WorkloadSystem::SpawnMultiComponent => SelectedWorkload::MultiComponentRead,
            WorkloadSystem::MultiComponentRead => SelectedWorkload::MultiComponentRead,
            WorkloadSystem::SpawnPositionVelocity => SelectedWorkload::PositionVelocity,
            WorkloadSystem::PositionVelocity => SelectedWorkload::PositionVelocity,
            WorkloadSystem::SpawnDespawnSetup => SelectedWorkload::SpawnDespawn,
            WorkloadSystem::SpawnDespawnChurn => SelectedWorkload::SpawnDespawn,
            WorkloadSystem::SpawnComponentToggle => SelectedWorkload::ComponentAddRemove,
            WorkloadSystem::ComponentAddRemove => SelectedWorkload::ComponentAddRemove,
            WorkloadSystem::SpawnFragmented => SelectedWorkload::FragmentedArchetypes,
            WorkloadSystem::FragmentedIteration => SelectedWorkload::FragmentedArchetypes,
        }
    }

    /// Whether this operation runs in a tick.
    pub fn runs(&self, active: SelectedWorkload, app_state: AppState) -> (enabled: bool)
        ensures
            enabled == self.enabled(active, app_state),
    {
        self.workload() == active && app_state == AppState::Running
    }

    /// The spawn operation of `workload`.
    pub fn spawn_of(workload: SelectedWorkload) -> (system: WorkloadSystem)
        ensures
            system.owner() == workload,
            system.step() == BenchmarkSet::Spawn,
    {
        match workload {
            SelectedWorkload::SimpleIteration => WorkloadSystem::SpawnSimpleIteration,
            SelectedWorkload::MultiComponentRead => WorkloadSystem::SpawnMultiComponent,
            SelectedWorkload::PositionVelocity => WorkloadSystem::SpawnPositionVelocity,
            SelectedWorkload::SpawnDespawn => WorkloadSystem::SpawnDespawnSetup,
            SelectedWorkload::ComponentAddRemove => WorkloadSystem::SpawnComponentToggle,
            SelectedWorkload::FragmentedArchetypes => WorkloadSystem::SpawnFragmented,
        }
    }

    /// The process operation of `workload`.
    pub fn process_of(workload: SelectedWorkload) -> (system: WorkloadSystem)
        ensures
            system.owner() == workload,
            system.step() == BenchmarkSet::Process,
    {
        match workload {
            SelectedWorkload::SimpleIteration => WorkloadSystem::SimpleIteration,
            SelectedWorkload::MultiComponentRead => WorkloadSystem::MultiComponentRead,
            SelectedWorkload::PositionVelocity => WorkloadSystem::PositionVelocity,
            SelectedWorkload::SpawnDespawn => WorkloadSystem::SpawnDespawnChurn,
            SelectedWorkload::ComponentAddRemove => WorkloadSystem::ComponentAddRemove,
            SelectedWorkload::FragmentedArchetypes => WorkloadSystem::FragmentedIteration,
        }
    }
}

/// The operations that run in a tick, in order: none unless a benchmark
/// is running, else the spawn operation of the active workload and then
/// its process operation.
pub fn active_systems(active: SelectedWorkload, app_state: AppState) -> (systems: Vec<
    WorkloadSystem,
>)
    ensures
        app_state != AppState::Running ==> systems@.len() == 0,
        app_state == AppState::Running ==> systems@.len() == 2 && systems@[0].owner() == active
            && systems@[0].step() == BenchmarkSet::Spawn && systems@[1].owner() == active
            && systems@[1].step() == BenchmarkSet::Process,
        forall|i: int| 0 <= i < systems@.len() ==> (#[trigger] systems@[i]).enabled(active, app_state),
{
    let mut systems: Vec<WorkloadSystem> = Vec::new();
    if app_state == AppState::Running {
        systems.push(WorkloadSystem::spawn_of(active));
        systems.push(WorkloadSystem::process_of(active));
    }
    systems
}

/// Each workload has exactly one operation per step: an operation of a
/// step that belongs to a workload is the one the registry names.
pub proof fn lemma_one_system_per_step(system: WorkloadSystem, other: WorkloadSystem)
    requires
        system.owner() == other.owner(),
        system.step() == other.step(),
    ensures
        system == other,
{
}

/// The entity count to spawn in a tick: that of the last spawn request,
/// if there is any.
pub fn needs_spawn(requests: &Vec<SpawnEntitiesRequest>) -> (count: Option<usize>)
    ensures
        requests@.len() == 0 ==> count.is_none(),
        requests@.len() > 0 ==> count == Some(requests@.last().count),
{
    if requests.len() == 0 {
        None
    } else {
        Some(requests[requests.len() - 1].count)
    }
}

} // verus!
