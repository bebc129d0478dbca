use bevy_ecs_benchmark::benchmark::runner::SpawnEntitiesRequest;
use bevy_ecs_benchmark::benchmark::workloads::fragmentation::{
    fragmented_variant, spawn_fragmented_entities, spawn_heavily_fragmented_entities,
    spawn_unified_variant_entities, unified_filter_matches, unified_multiplier_tenths,
    ARCHETYPE_VARIANTS,
};
use bevy_ecs_benchmark::benchmark::workloads::iteration::{
    simple_iteration_system, spawn_simple_iteration_entities,
};
use bevy_ecs_benchmark::benchmark::workloads::mutation::{
    counter_increment_system, spawn_counter_entities,
};
use bevy_ecs_benchmark::benchmark::workloads::registry::active_systems;
use bevy_ecs_benchmark::benchmark::workloads::structural::{
    batch_spawn_system, component_add_remove_system, multi_component_insert_system,
    multi_component_remove_system, spawn_component_toggle_entities, spawn_despawn_churn_system,
    spawn_despawn_setup, ChurnPlan, ComponentToggleState, MultiInsert, SpawnDespawnState,
    TogglePlan,
};
use bevy_ecs_benchmark::benchmark::workloads::{
    needs_spawn, BenchmarkSet, FragmentedStore, UnifiedStore, WorkloadSystem,
};
use bevy_ecs_benchmark::components::{
    Counter, EntityVariant, FastRng, SecondaryToggle, ToggleComponent,
};
use bevy_ecs_benchmark::state::{AppState, SelectedWorkload};

#[test]
fn workloads_have_names_and_keys() {
    let all = SelectedWorkload::all();
    assert_eq!(all.len(), 6);
    assert_eq!(all[0], SelectedWorkload::SimpleIteration);
    assert_eq!(all[5], SelectedWorkload::FragmentedArchetypes);
    assert_eq!(SelectedWorkload::default(), SelectedWorkload::SimpleIteration);
    let names = [
        "Simple Iteration",
        "Multi-Component Read",
        "Position/Velocity Update",
        "Spawn/Despawn Churn",
        "Component Add/Remove",
        "Fragmented Archetypes",
    ];
    let descriptions = [
        "Read-only iteration over single component",
        "Read 3 components per entity",
        "Classic game loop: position += velocity",
        "Spawn and despawn entities each frame",
        "Add/remove components on existing entities",
        "Entities spread across many archetypes",
    ];
    for (i, workload) in all.iter().enumerate() {
        assert_eq!(workload.name(), names[i]);
        assert_eq!(workload.description(), descriptions[i]);
        assert_eq!(workload.key_hint(), format!("{}", i + 1));
        assert_eq!(SelectedWorkload::at(i), Some(*workload));
        let key = workload.key_hint().chars().next().unwrap();
        assert_eq!(SelectedWorkload::from_key(key), Some(*workload));
    }
    assert_eq!(SelectedWorkload::at(6), None);
    assert_eq!(SelectedWorkload::from_key('0'), None);
    assert_eq!(SelectedWorkload::from_key('7'), None);
    assert_eq!(SelectedWorkload::from_key('r'), None);
}

#[test]
fn registry_pairs_spawn_and_process() {
    for workload in SelectedWorkload::all().iter().copied() {
        let spawn = WorkloadSystem::spawn_of(workload);
        let process = WorkloadSystem::process_of(workload);
        assert_eq!(spawn.set(), BenchmarkSet::Spawn);
        assert_eq!(process.set(), BenchmarkSet::Process);
        assert_eq!(spawn.workload(), workload);
        assert_eq!(process.workload(), workload);
        assert_eq!(active_systems(workload, AppState::Running), vec![spawn, process]);
        assert!(active_systems(workload, AppState::Paused).is_empty());
        assert!(active_systems(workload, AppState::Menu).is_empty());
        assert!(active_systems(workload, AppState::Results).is_empty());
        assert!(spawn.runs(workload, AppState::Running));
        assert!(!spawn.runs(workload, AppState::Paused));
    }
    assert_eq!(
        WorkloadSystem::spawn_of(SelectedWorkload::SpawnDespawn),
        WorkloadSystem::SpawnDespawnSetup
    );
    assert_eq!(
        WorkloadSystem::process_of(SelectedWorkload::SpawnDespawn),
        WorkloadSystem::SpawnDespawnChurn
    );
    assert!(!WorkloadSystem::SimpleIteration.runs(SelectedWorkload::SpawnDespawn, AppState::Running));
}

#[test]
fn last_spawn_request_wins() {
    assert_eq!(needs_spawn(&Vec::new()), None);
    let requests = vec![
        SpawnEntitiesRequest { count: 10 },
        SpawnEntitiesRequest { count: 30 },
        SpawnEntitiesRequest { count: 20 },
    ];
    assert_eq!(needs_spawn(&requests), Some(20));
}

#[test]
fn simple_iteration_spawns_zeroed_counters() {
    let batch = spawn_simple_iteration_entities(1_000);
    assert_eq!(batch.len(), 1_000);
    assert!(batch.iter().all(|c| c.value == 0));
    assert!(spawn_simple_iteration_entities(0).is_empty());
    assert_eq!(spawn_counter_entities(3), vec![Counter { value: 0 }; 3]);
    assert_eq!(Counter::default(), Counter { value: 0 });
}

#[test]
fn iteration_sums_with_wraparound() {
    assert_eq!(simple_iteration_system(&Vec::new()), 0);
    let counters = vec![Counter { value: 1 }, Counter { value: 2 }, Counter { value: 39 }];
    assert_eq!(simple_iteration_system(&counters), 42);
    let wrapping = vec![Counter { value: u64::MAX }, Counter { value: 5 }];
    assert_eq!(simple_iteration_system(&wrapping), 4);
}

#[test]
fn increment_visits_every_counter() {
    let mut counters = vec![Counter { value: 0 }, Counter { value: 41 }, Counter { value: u64::MAX }];
    counter_increment_system(&mut counters);
    assert_eq!(counters, vec![Counter { value: 1 }, Counter { value: 42 }, Counter { value: 0 }]);
}

#[test]
fn variant_flags_are_independent() {
    let mut variant = EntityVariant::new(EntityVariant::NONE);
    assert_eq!(variant, EntityVariant::default());
    let flags = [
        EntityVariant::A,
        EntityVariant::B,
        EntityVariant::C,
        EntityVariant::D,
        EntityVariant::E,
        EntityVariant::F,
        EntityVariant::G,
        EntityVariant::H,
    ];
    for (i, flag) in flags.iter().enumerate() {
        assert_eq!(*flag, 1u8 << i);
        assert!(!variant.has(*flag));
        variant.add(*flag);
        assert!(variant.has(*flag));
        for other in &flags[i + 1..] {
            assert!(!variant.has(*other));
        }
    }
    assert_eq!(variant.0, 0xFF);
    variant.remove(EntityVariant::C);
    assert!(!variant.has(EntityVariant::C));
    assert_eq!(variant.0, 0xFB);
    variant.remove(EntityVariant::C);
    assert_eq!(variant.0, 0xFB);
    variant.add(EntityVariant::A | EntityVariant::C);
    assert_eq!(variant.0, 0xFF);
    assert!(EntityVariant::new(6).has(EntityVariant::B | EntityVariant::H));
    assert!(!EntityVariant::new(6).has(EntityVariant::A | EntityVariant::H));
}

#[test]
fn flips_set_their_flags() {
    assert_eq!(EntityVariant::from_flips(&[false; 8]).0, 0);
    assert_eq!(EntityVariant::from_flips(&[true; 8]).0, 0xFF);
    let flips = [true, false, false, true, false, false, false, true];
    assert_eq!(EntityVariant::from_flips(&flips).0, 1 | 8 | 128);
}

#[test]
fn seeded_generators_repeat_themselves() {
    let mut first = FastRng::with_seed(7);
    let mut second = FastRng::with_seed(7);
    let a: Vec<u8> = (0..64).map(|_| first.next_u8()).collect();
    let b: Vec<u8> = (0..64).map(|_| second.next_u8()).collect();
    assert_eq!(a, b);
    assert!(a.iter().any(|byte| *byte != a[0]));
    let mut default = FastRng::default();
    let mut forty_two = FastRng::with_seed(42);
    for _ in 0..32 {
        assert_eq!(default.flip(), forty_two.flip());
    }
    let mut other = FastRng::with_seed(8);
    let c: Vec<u8> = (0..64).map(|_| other.next_u8()).collect();
    assert_ne!(a, c);
    for _ in 0..32 {
        assert!(first.chance(5, 5));
        assert!(!first.chance(0, 5));
    }
    let heads = (0..1000).filter(|_| first.chance(1, 2)).count();
    assert!(heads > 400 && heads < 600);
    let mut entropy = FastRng::from_entropy();
    let _ = EntityVariant::random_with(&mut entropy);
    let _ = EntityVariant::random();
}

#[test]
fn fragmented_spawn_cycles_through_eight_combinations() {
    assert_eq!(ARCHETYPE_VARIANTS, 8);
    let expected: [u8; 8] = [1, 2, 4, 8, 3, 12, 48, 192];
    let batch = spawn_fragmented_entities(20);
    assert_eq!(batch.len(), 20);
    for (i, variant) in batch.iter().enumerate() {
        assert_eq!(variant.0, expected[i % 8]);
        assert_eq!(fragmented_variant(i), *variant);
    }
    assert_eq!(fragmented_variant(4).0, EntityVariant::A | EntityVariant::B);
    assert_eq!(fragmented_variant(7).0, EntityVariant::G | EntityVariant::H);
    assert!(spawn_fragmented_entities(0).is_empty());
}

#[test]
fn random_spawns_have_the_exact_count() {
    let mut rng = FastRng::with_seed(1);
    assert_eq!(spawn_unified_variant_entities(257, &mut rng).len(), 257);
    assert_eq!(spawn_heavily_fragmented_entities(33, &mut rng).len(), 33);
    assert!(spawn_unified_variant_entities(0, &mut rng).is_empty());
    let mut again = FastRng::with_seed(1);
    let mut third = FastRng::with_seed(1);
    assert_eq!(
        spawn_heavily_fragmented_entities(50, &mut again),
        spawn_heavily_fragmented_entities(50, &mut third)
    );
}

#[test]
fn random_spawns_draw_from_the_generator_in_turn() {
    let mut spawning = FastRng::with_seed(11);
    let mut drawing = FastRng::with_seed(11);
    let batch = spawn_unified_variant_entities(40, &mut spawning);
    for variant in &batch {
        assert_eq!(variant.0, drawing.next_u8());
    }
    // Both generators stand at the same state afterwards.
    assert_eq!(EntityVariant::random_with(&mut spawning).0, drawing.next_u8());
    let batch = spawn_heavily_fragmented_entities(40, &mut spawning);
    for variant in &batch {
        let mut flips = [false; 8];
        for flip in flips.iter_mut() {
            *flip = drawing.flip();
        }
        assert_eq!(*variant, EntityVariant::from_flips(&flips));
    }
    assert_eq!(spawning.next_u8(), drawing.next_u8());
    assert!(batch.iter().any(|variant| *variant != batch[0]));
}

#[test]
fn unified_variant_logic_branches_on_flags() {
    assert_eq!(unified_multiplier_tenths(EntityVariant::new(EntityVariant::A)), 15);
    assert_eq!(unified_multiplier_tenths(EntityVariant::new(0xFF)), 15);
    assert_eq!(unified_multiplier_tenths(EntityVariant::new(EntityVariant::B)), 10);
    assert_eq!(unified_multiplier_tenths(EntityVariant::new(0)), 10);
    assert!(unified_filter_matches(EntityVariant::new(EntityVariant::A)));
    assert!(unified_filter_matches(EntityVariant::new(EntityVariant::B | EntityVariant::H)));
    assert!(!unified_filter_matches(EntityVariant::new(EntityVariant::C | EntityVariant::H)));
}

#[test]
fn churn_replaces_one_percent_and_at_least_ten() {
    let mut state = SpawnDespawnState::default();
    assert_eq!(spawn_despawn_churn_system(&state, 500), ChurnPlan { despawn: 0, spawn: 0 });
    spawn_despawn_setup(&mut state, 10_000);
    assert_eq!(
        state,
        SpawnDespawnState {
            target_count: 10_000,
            current_count: 10_000,
            churn_percent: 1,
            initialized: true,
        }
    );
    assert_eq!(spawn_despawn_churn_system(&state, 10_000), ChurnPlan { despawn: 100, spawn: 100 });
    assert_eq!(spawn_despawn_churn_system(&state, 40), ChurnPlan { despawn: 40, spawn: 100 });
    spawn_despawn_setup(&mut state, 999);
    assert_eq!(spawn_despawn_churn_system(&state, 999), ChurnPlan { despawn: 10, spawn: 10 });
    spawn_despawn_setup(&mut state, 1_099);
    assert_eq!(spawn_despawn_churn_system(&state, 1_099), ChurnPlan { despawn: 10, spawn: 10 });
    spawn_despawn_setup(&mut state, 1_100);
    assert_eq!(spawn_despawn_churn_system(&state, 1_100), ChurnPlan { despawn: 11, spawn: 11 });
    spawn_despawn_setup(&mut state, usize::MAX);
    assert_eq!(spawn_despawn_churn_system(&state, 0).spawn, usize::MAX / 100);
}

#[test]
fn toggle_spawn_splits_the_population_in_half() {
    let mut state = ComponentToggleState { initialized: false, frame_counter: 99 };
    let batches = spawn_component_toggle_entities(&mut state, 7);
    assert_eq!(state, ComponentToggleState { initialized: true, frame_counter: 0 });
    assert_eq!(
        batches.with_toggle,
        vec![
            (Counter { value: 0 }, ToggleComponent { value: 0 }),
            (Counter { value: 1 }, ToggleComponent { value: 1 }),
            (Counter { value: 2 }, ToggleComponent { value: 2 }),
        ]
    );
    assert_eq!(
        batches.without_toggle,
        vec![Counter { value: 3 }, Counter { value: 4 }, Counter { value: 5 }, Counter { value: 6 }]
    );
    let empty = spawn_component_toggle_entities(&mut state, 0);
    assert!(empty.with_toggle.is_empty() && empty.without_toggle.is_empty());
    let one = spawn_component_toggle_entities(&mut state, 1);
    assert!(one.with_toggle.is_empty());
    assert_eq!(one.without_toggle, vec![Counter { value: 0 }]);
}

#[test]
fn toggling_happens_every_tenth_tick() {
    let mut state = ComponentToggleState::default();
    assert_eq!(component_add_remove_system(&mut state, 5, 5), None);
    assert_eq!(state.frame_counter, 0);
    spawn_component_toggle_entities(&mut state, 10);
    for tick in 1..10 {
        assert_eq!(component_add_remove_system(&mut state, 5, 5), None);
        assert_eq!(state.frame_counter, tick);
    }
    assert_eq!(
        component_add_remove_system(&mut state, 5, 5),
        Some(TogglePlan { remove: 5, add: 5, value: 10 })
    );
    state.frame_counter = 19;
    assert_eq!(
        component_add_remove_system(&mut state, 5_000, 300),
        Some(TogglePlan { remove: 1_000, add: 300, value: 20 })
    );
    state.frame_counter = 29;
    assert_eq!(
        component_add_remove_system(&mut state, 400, 5_000),
        Some(TogglePlan { remove: 400, add: 400, value: 30 })
    );
    state.frame_counter = usize::MAX;
    assert_eq!(
        component_add_remove_system(&mut state, 0, 9),
        Some(TogglePlan { remove: 0, add: 0, value: 0 })
    );
    assert_eq!(state.frame_counter, 0);
}

#[test]
fn multi_component_changes_alternate() {
    let mut frame = 0usize;
    for _ in 1..30 {
        assert_eq!(multi_component_insert_system(&mut frame, 500), None);
    }
    assert_eq!(
        multi_component_insert_system(&mut frame, 500),
        Some(MultiInsert {
            entities: 100,
            secondary: SecondaryToggle { active: true },
            toggle: ToggleComponent { value: 30 },
        })
    );
    frame = 59;
    assert_eq!(multi_component_insert_system(&mut frame, 42).unwrap().entities, 42);
    let mut frame = 13usize;
    assert_eq!(multi_component_remove_system(&mut frame, 500), 0);
    assert_eq!(multi_component_remove_system(&mut frame, 500), 100);
    assert_eq!(frame, 15);
    assert_eq!(multi_component_remove_system(&mut frame, 500), 0);
    frame = 44;
    assert_eq!(multi_component_remove_system(&mut frame, 7), 7);
    let mut frame = 58usize;
    assert!(!batch_spawn_system(&mut frame));
    assert!(batch_spawn_system(&mut frame));
    assert_eq!(frame, 60);
}

#[test]
fn fragmented_store_has_a_class_per_combination() {
    let mut store: FragmentedStore<u32> = FragmentedStore::new();
    assert_eq!(store.len(), 0);
    assert_eq!(store.class_count(), 0);
    assert!(store.class_of(EntityVariant::new(1)).is_none());
    for i in 0..20usize {
        store.insert(fragmented_variant(i), i as u32);
    }
    assert_eq!(store.len(), 20);
    assert_eq!(store.class_count(), 8);
    assert_eq!(store.class_of(EntityVariant::new(1)), Some(&vec![0, 8, 16]));
    assert_eq!(store.class_of(EntityVariant::new(8)), Some(&vec![3, 11, 19]));
    assert_eq!(store.class_of(EntityVariant::new(3)), Some(&vec![4, 12]));
    assert_eq!(store.class_of(EntityVariant::new(192)), Some(&vec![7, 15]));
    assert!(store.class_of(EntityVariant::new(0)).is_none());
    assert_eq!(store.classes[0].tags, EntityVariant::new(1));
    assert_eq!(store.classes[7].tags, EntityVariant::new(192));
}

#[test]
fn unified_store_has_one_class() {
    let mut store: UnifiedStore<u32> = UnifiedStore::new();
    assert_eq!(store.class_count(), 0);
    for i in 0..20usize {
        store.insert(fragmented_variant(i), i as u32);
    }
    assert_eq!(store.len(), 20);
    assert_eq!(store.class_count(), 1);
    assert_eq!(*store.get(4), (EntityVariant::new(3), 4));
    assert_eq!(*store.get(19), (EntityVariant::new(8), 19));
}

#[test]
fn both_layouts_hold_the_same_entities() {
    let mut rng = FastRng::with_seed(3);
    let tags = spawn_unified_variant_entities(500, &mut rng);
    let mut unified: UnifiedStore<usize> = UnifiedStore::new();
    let mut fragmented: FragmentedStore<usize> = FragmentedStore::new();
    for (i, variant) in tags.iter().enumerate() {
        unified.insert(*variant, i);
        fragmented.insert(*variant, i);
    }
    assert_eq!(unified.len(), fragmented.len());
    let mut classes = 0;
    for combination in 0..=255u8 {
        let expected: Vec<usize> =
            tags.iter().enumerate().filter(|(_, v)| v.0 == combination).map(|(i, _)| i).collect();
        match fragmented.class_of(EntityVariant::new(combination)) {
            Some(members) => {
                classes += 1;
                assert_eq!(*members, expected);
            }
            None => assert!(expected.is_empty()),
        }
    }
    assert_eq!(fragmented.class_count(), classes);
    let moved = unified.into_fragmented();
    assert_eq!(moved.len(), 500);
    assert_eq!(moved.class_count(), classes);
    for class in &fragmented.classes {
        assert_eq!(moved.class_of(class.tags), Some(&class.members));
    }
}
