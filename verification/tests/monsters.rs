use soul_bomb_monster_hunt::entity::EntityId;
use soul_bomb_monster_hunt::float_bits::{F32Bits, Vec2Bits, Vec3Bits};
use soul_bomb_monster_hunt::functionality_override::FunctionalityOverrides;
use soul_bomb_monster_hunt::game::bombs::bomb_events::BombExploded;
use soul_bomb_monster_hunt::game::bombs::bomb_state::BombState;
use soul_bomb_monster_hunt::game::monsters::monster::Monster;
use soul_bomb_monster_hunt::game::monsters::monster_audio::{MonsterAudioPlugin, MonsterSound};
use soul_bomb_monster_hunt::game::monsters::monster_chase_updater::MonsterChaseUpdaterPlugin;
use soul_bomb_monster_hunt::game::monsters::monster_error::{MonsterError, TimerSequenceError};
use soul_bomb_monster_hunt::game::monsters::monster_events::{MonsterStateChanged, MonsterStrayPathUpdated};
use soul_bomb_monster_hunt::game::monsters::monster_path::main_path_initiation::MonsterMainPathInitiationPlugin;
use soul_bomb_monster_hunt::game::monsters::monster_path::stray_path_ender::{MonsterStrayPathEnderPlugin, PathMover};
use soul_bomb_monster_hunt::game::monsters::monster_path::stray_path_updater::{
    Approach, MonsterStrayPathUpdaterPlugin, MovementTimer, StrayPathPlan,
};
use soul_bomb_monster_hunt::game::monsters::monster_path_updater::MonsterPathUpdaterPlugin;
use soul_bomb_monster_hunt::game::monsters::monster_spawner::{
    MonsterSpawnerPlugin, PathShape, TIME_IT_TAKES_MONSTERS_TO_SPAWN_BITS,
};
use soul_bomb_monster_hunt::game::monsters::monster_state::MonsterState;
use soul_bomb_monster_hunt::game::monsters::state_management::monster_state_changer::{
    BombNearby, MonsterStateChangerPlugin, PlayerNearby, MONSTER_COLLIDER_RADIUS_BITS,
};
use soul_bomb_monster_hunt::game::monsters::state_management::state_change_visualizer::{
    ChaseVisualChange, MonsterStateChangeVisualizerPlugin,
};
use soul_bomb_monster_hunt::game::monsters::visuals::animation_manager::MonsterAnimationManagerPlugin;
use soul_bomb_monster_hunt::game::monsters::visuals::animation_starter::MonsterAnimationStarterPlugin;
use soul_bomb_monster_hunt::palette::PaletteColor;
use soul_bomb_monster_hunt::timers::{
    TimerAffectedEntity, TimerDoneEventType, TimerDuration, TimerParentSequence,
};

fn bits(x: f32) -> F32Bits {
    F32Bits::from_bits(x.to_bits())
}

fn monster(state: MonsterState) -> Monster {
    Monster {
        hearing_ring_distance: bits(100.0),
        state,
        path_timer_sequence: Some(EntityId(50)),
        animation_timer_sequence: None,
    }
}

fn player(id: u64, distance: f32) -> PlayerNearby {
    PlayerNearby { player_entity: EntityId(id), distance: bits(distance) }
}

fn bomb(id: u64, state: BombState, distance: f32, time: f32) -> BombNearby {
    BombNearby { bomb_entity: EntityId(id), state, distance: bits(distance), time_until_explosion: bits(time) }
}

#[test]
fn monsters_chase_the_last_player_they_hear() {
    let m = monster(MonsterState::Idle);
    let players = vec![player(1, 50.0), player(2, 150.0), player(3, 99.0), player(4, 100.0)];
    let bombs = vec![bomb(10, BombState::Held, 10.0, 1.0)];
    assert_eq!(
        MonsterStateChangerPlugin::check_environment_for_next_state(&m, &players, &bombs),
        MonsterState::Chasing(EntityId(3))
    );
}

#[test]
fn monsters_flee_the_bomb_closest_to_exploding() {
    let m = monster(MonsterState::Idle);
    let players = vec![player(1, 100.0)];
    let bombs = vec![
        bomb(10, BombState::PreHeld, 10.0, 0.5),
        bomb(11, BombState::PostHeld, 60.0, 3.0),
        bomb(12, BombState::Held, 20.0, 2.0),
        bomb(13, BombState::PostHeld, 30.0, 2.0),
        bomb(14, BombState::PostHeld, 120.0, 0.1),
    ];
    assert_eq!(
        MonsterStateChangerPlugin::check_environment_for_next_state(&m, &players, &bombs),
        MonsterState::Fleeing(EntityId(12))
    );
    assert_eq!(
        MonsterStateChangerPlugin::determine_most_danger_posing_bomb(&m, &bombs),
        Some(EntityId(12))
    );
}

#[test]
fn monsters_ignore_bombs_on_the_floor_and_out_of_hearing() {
    let m = monster(MonsterState::Chasing(EntityId(1)));
    let bombs = vec![bomb(10, BombState::PreHeld, 10.0, 0.5), bomb(11, BombState::Held, 100.0, 1.0)];
    assert_eq!(
        MonsterStateChangerPlugin::check_environment_for_next_state(&m, &vec![], &bombs),
        MonsterState::Idle
    );
}

#[test]
fn hearing_ring_updates_announce_changes_once() {
    let mut m = monster(MonsterState::Idle);
    let players = vec![player(7, 20.0)];
    let changed = MonsterStateChangerPlugin::update_monster_hearing_ring(&mut m, EntityId(99), &players, &vec![]);
    assert_eq!(
        changed,
        Some(MonsterStateChanged {
            monster: EntityId(99),
            next_state: MonsterState::Chasing(EntityId(7)),
            previous_state: MonsterState::Idle,
        })
    );
    assert_eq!(m.state, MonsterState::Chasing(EntityId(7)));
    let again = MonsterStateChangerPlugin::update_monster_hearing_ring(&mut m, EntityId(99), &players, &vec![]);
    assert_eq!(again, None);
}

#[test]
fn spawning_monsters_are_left_alone() {
    let mut m = monster(MonsterState::Spawning);
    let players = vec![player(7, 20.0)];
    assert_eq!(
        MonsterStateChangerPlugin::update_monster_hearing_ring(&mut m, EntityId(99), &players, &vec![]),
        None
    );
    assert_eq!(m.state, MonsterState::Spawning);
    let mut switches = FunctionalityOverrides::none();
    let mut unchecked = m;
    switches.dont_check_monster_colliders = true;
    let (unchecked_done, no_collider) =
        MonsterStateChangerPlugin::declare_monster_spawning_done(&mut unchecked, EntityId(99), &switches);
    assert_eq!(no_collider, None);
    assert_eq!(unchecked_done.next_state, MonsterState::Idle);
    let (done, collider) =
        MonsterStateChangerPlugin::declare_monster_spawning_done(&mut m, EntityId(99), &FunctionalityOverrides::none());
    assert_eq!(collider.unwrap().radius, F32Bits::from_bits(MONSTER_COLLIDER_RADIUS_BITS));
    assert_eq!(f32::from_bits(MONSTER_COLLIDER_RADIUS_BITS), 20.0);
    assert_eq!(done.previous_state, MonsterState::Spawning);
    assert_eq!(done.next_state, MonsterState::Idle);
    assert!(done.ends_spawn_phase());
    assert_eq!(m.state, MonsterState::Idle);
}

#[test]
fn requested_danger_checks_always_announce() {
    let mut m = monster(MonsterState::Idle);
    let changed = MonsterStateChangerPlugin::listen_for_manual_danger_check_request(&mut m, EntityId(3), &vec![], &vec![]);
    assert_eq!(changed.previous_state, MonsterState::Idle);
    assert_eq!(changed.next_state, MonsterState::Idle);
}

#[test]
fn chase_visuals_start_and_stop_with_chases() {
    let states = [
        MonsterState::Spawning,
        MonsterState::Idle,
        MonsterState::Chasing(EntityId(1)),
        MonsterState::Fleeing(EntityId(2)),
    ];
    for previous_state in states {
        for next_state in states {
            let event = MonsterStateChanged { monster: EntityId(0), next_state, previous_state };
            let apply = MonsterStateChangeVisualizerPlugin::should_apply_chase_visuals(&event);
            let cancel = MonsterStateChangeVisualizerPlugin::should_cancel_chase_visuals(&event);
            assert!(!(apply && cancel));
        }
    }
    let start = MonsterStateChanged {
        monster: EntityId(0),
        next_state: MonsterState::Chasing(EntityId(1)),
        previous_state: MonsterState::Fleeing(EntityId(2)),
    };
    assert_eq!(
        MonsterStateChangeVisualizerPlugin::determine_visualize_change(&start),
        Some(ChaseVisualChange::ApplyChaseVisuals)
    );
    let stop = MonsterStateChanged {
        monster: EntityId(0),
        next_state: MonsterState::Idle,
        previous_state: MonsterState::Chasing(EntityId(1)),
    };
    assert_eq!(
        MonsterStateChangeVisualizerPlugin::determine_visualize_change(&stop),
        Some(ChaseVisualChange::CancelChaseVisuals)
    );
    let spawn = MonsterStateChanged {
        monster: EntityId(0),
        next_state: MonsterState::Chasing(EntityId(1)),
        previous_state: MonsterState::Spawning,
    };
    assert_eq!(MonsterStateChangeVisualizerPlugin::determine_visualize_change(&spawn), None);
}

#[test]
fn monsters_cry_for_the_first_events_only() {
    let origin = Vec3Bits { x: bits(0.0), y: bits(0.0), z: bits(0.0) };
    let chase = MonsterStateChanged {
        monster: EntityId(0),
        next_state: MonsterState::Chasing(EntityId(1)),
        previous_state: MonsterState::Idle,
    };
    let calm = MonsterStateChanged { next_state: MonsterState::Idle, ..chase };
    let kill = BombExploded { location: origin, monster_hit_count: 2, hit_player: false };
    let miss = BombExploded { monster_hit_count: 0, ..kill };
    assert_eq!(
        MonsterAudioPlugin::sound_monster_sounds(&vec![chase], &vec![kill]),
        vec![MonsterSound::BattleCry, MonsterSound::DeathCry]
    );
    assert!(MonsterAudioPlugin::sound_monster_sounds(&vec![calm, chase], &vec![miss, kill]).is_empty());
}

#[test]
fn stray_paths_are_planned_from_the_target() {
    assert_eq!(
        MonsterStrayPathUpdaterPlugin::plan_stray_path(
            MonsterState::Chasing(EntityId(1)),
            MonsterState::Chasing(EntityId(1)),
            MonsterState::Idle
        ),
        Some(StrayPathPlan { target: EntityId(1), approach: Approach::Chase, destroy_previous_calculator: false })
    );
    assert_eq!(
        MonsterStrayPathUpdaterPlugin::plan_stray_path(
            MonsterState::Fleeing(EntityId(2)),
            MonsterState::Fleeing(EntityId(2)),
            MonsterState::Chasing(EntityId(1))
        ),
        Some(StrayPathPlan { target: EntityId(2), approach: Approach::Flee, destroy_previous_calculator: true })
    );
    assert_eq!(
        MonsterStrayPathUpdaterPlugin::plan_stray_path(MonsterState::Idle, MonsterState::Idle, MonsterState::Idle),
        None
    );
}

fn mover(timer: u64, parent: Option<u64>) -> MovementTimer {
    MovementTimer {
        timer: EntityId(timer),
        value_calculator: EntityId(timer + 100),
        parent_sequence: parent.map(|p| TimerParentSequence { parent_sequence: EntityId(p), index_in_sequence: 2 }),
    }
}

#[test]
fn path_timers_are_found_or_reported_missing() {
    let movers = Some(vec![mover(1, None), mover(2, Some(7)), mover(3, Some(50)), mover(4, Some(50))]);
    let found = MonsterStrayPathUpdaterPlugin::destroy_current_path_timer_and_calculator(Some(EntityId(50)), &movers, true)
        .unwrap();
    assert_eq!(found.index, 2);
    assert_eq!(found.timer, EntityId(3));
    assert_eq!(found.value_calculator, EntityId(103));
    assert_eq!(found.parent_sequence, TimerParentSequence { parent_sequence: EntityId(50), index_in_sequence: 2 });
    assert!(found.despawn_calculator);
    assert_eq!(
        MonsterStrayPathUpdaterPlugin::destroy_current_path_timer_and_calculator(Some(EntityId(8)), &movers, false)
            .unwrap_err(),
        MonsterError::NoMovementTimerHadTheListedPathParentSequence
    );
    assert_eq!(
        MonsterStrayPathUpdaterPlugin::destroy_current_path_timer_and_calculator(None, &movers, false).unwrap_err(),
        MonsterError::MonsterHasNoPathTimerSequenceAssigned
    );
    assert_eq!(
        MonsterStrayPathUpdaterPlugin::destroy_current_path_timer_and_calculator(Some(EntityId(50)), &None, false)
            .unwrap_err(),
        MonsterError::NoMovementAffectingTimerFound
    );
    assert_eq!(
        MonsterStrayPathUpdaterPlugin::destroy_current_path_timer_and_calculator(Some(EntityId(50)), &Some(vec![]), false)
            .unwrap_err(),
        MonsterError::NoMovementAffectingTimerFound
    );
}

#[test]
fn chase_updates_and_path_replacement_pick_their_timers() {
    let movers = vec![mover(1, None), mover(2, Some(50)), mover(3, Some(7)), mover(4, Some(50))];
    assert_eq!(MonsterPathUpdaterPlugin::destroy_current_path_timer(&movers), Some(1));
    assert_eq!(MonsterPathUpdaterPlugin::destroy_current_path_timer(&vec![mover(1, None)]), None);
}

#[test]
fn stray_paths_end_when_monsters_calm_down() {
    let calm = MonsterStateChanged {
        monster: EntityId(0),
        next_state: MonsterState::Idle,
        previous_state: MonsterState::Chasing(EntityId(1)),
    };
    assert!(MonsterStrayPathEnderPlugin::ends_stray_path(&calm));
    let spawned = MonsterStateChanged { previous_state: MonsterState::Spawning, ..calm };
    assert!(!MonsterStrayPathEnderPlugin::ends_stray_path(&spawned));
    let flee = MonsterStateChanged { next_state: MonsterState::Fleeing(EntityId(3)), ..calm };
    assert!(!MonsterStrayPathEnderPlugin::ends_stray_path(&flee));
}

#[test]
fn patrols_are_made_of_stretches_between_vertices() {
    assert_eq!(
        MonsterMainPathInitiationPlugin::configure_path_stretches(&vec![1, 2, 3, 1]),
        vec![(1, 2), (2, 3), (3, 1)]
    );
    assert!(MonsterMainPathInitiationPlugin::configure_path_stretches(&vec![5]).is_empty());
    assert!(MonsterMainPathInitiationPlugin::configure_path_stretches::<i32>(&vec![]).is_empty());
    let _ = MonsterMainPathInitiationPlugin::choose_main_path();
}

#[test]
fn spawn_spots_and_paths() {
    assert_eq!(MonsterSpawnerPlugin::choose_spawn_spot(Some(1), Ok(2)), Ok(1));
    assert_eq!(MonsterSpawnerPlugin::choose_spawn_spot(None, Ok(2)), Ok(2));
    assert_eq!(
        MonsterSpawnerPlugin::choose_spawn_spot(Some(1), Err(MonsterError::CouldntFindAPlaceToSpawnMonsterIn)),
        Err(MonsterError::CouldntFindAPlaceToSpawnMonsterIn)
    );
    assert_eq!(PathShape::from_code(0), PathShape::Pentagon);
    assert_eq!(PathShape::from_code(1), PathShape::Square);
    assert_eq!(PathShape::from_code(2), PathShape::BackAndForth);
    let mut shapes = Vec::new();
    for _ in 0..300 {
        let choice = MonsterSpawnerPlugin::generate_initial_path_to_follow();
        if !shapes.contains(&choice.shape) {
            shapes.push(choice.shape);
        }
    }
    assert_eq!(shapes.len(), 3);
}

#[test]
fn flying_animation_frames() {
    assert_eq!(MonsterAnimationManagerPlugin::flying_frame_indices(4), vec![4, 13, 22, 13]);
    assert_eq!(MonsterAnimationStarterPlugin::flying_frame_indices(), vec![0, 3, 6, 3]);
    let mut m = monster(MonsterState::Idle);
    assert_eq!(m.replace_animation_timer_sequence(EntityId(8)), None);
    assert_eq!(m.replace_animation_timer_sequence(EntityId(9)), Some(EntityId(8)));
    assert_eq!(m.animation_timer_sequence, Some(EntityId(9)));
}

#[test]
fn monster_states_and_errors() {
    assert_eq!(MonsterState::default(), MonsterState::Idle);
    assert_eq!(MonsterState::Spawning.to_hearing_ring_gizmo_color(), PaletteColor::Pink);
    assert_eq!(MonsterState::Idle.to_hearing_ring_gizmo_color(), PaletteColor::Gray);
    assert_eq!(MonsterState::Chasing(EntityId(1)).to_hearing_ring_gizmo_color(), PaletteColor::Maroon);
    assert_eq!(MonsterState::Fleeing(EntityId(1)).to_hearing_ring_gizmo_color(), PaletteColor::Olive);
    assert_eq!(MonsterState::Fleeing(EntityId(4)).pursued_entity(), Some(EntityId(4)));
    assert_eq!(MonsterState::Spawning.pursued_entity(), None);
    assert_eq!(
        MonsterError::from(TimerSequenceError::ATimerFromASequenceFinishedButParentNotFound),
        MonsterError::TimerSequenceError(TimerSequenceError::ATimerFromASequenceFinishedButParentNotFound)
    );
    let spawned = Monster::spawning(bits(130.0));
    assert_eq!(spawned.state, MonsterState::Spawning);
    assert_eq!(spawned.path_timer_sequence, None);
}

fn delta() -> Vec2Bits {
    Vec2Bits { x: bits(3.0), y: bits(-4.0) }
}

#[test]
fn stray_paths_replace_the_path_timer_with_two_timers() {
    let movers = Some(vec![mover(1, None), mover(3, Some(50))]);
    let chasing = monster(MonsterState::Chasing(EntityId(7)));
    let update = MonsterStrayPathUpdaterPlugin::replace_current_path_get_new_delta(
        &chasing,
        EntityId(20),
        MonsterState::Idle,
        &movers,
        EntityId(60),
        bits(2.5),
        delta(),
    )
    .unwrap();
    assert_eq!(update.removal.index, 1);
    assert_eq!(update.removal.timer, EntityId(3));
    assert!(!update.removal.despawn_calculator);
    let parent = TimerParentSequence { parent_sequence: EntityId(50), index_in_sequence: 2 };
    assert_eq!(update.timer_fire_requests.len(), 2);
    let mover_timer = &update.timer_fire_requests[0];
    assert_eq!(
        mover_timer.timer.affected_entities,
        vec![TimerAffectedEntity { affected_entity: EntityId(20), value_calculator_entity: Some(EntityId(60)) }]
    );
    assert_eq!(mover_timer.timer.duration, TimerDuration::Seconds(bits(2.5)));
    assert_eq!(mover_timer.timer.send_once_done, TimerDoneEventType::SetAnimationCycleByPathParentSequence);
    assert_eq!(mover_timer.parent_sequence, Some(parent));
    let state_timer = &update.timer_fire_requests[1];
    assert_eq!(
        state_timer.timer.affected_entities,
        vec![TimerAffectedEntity { affected_entity: EntityId(20), value_calculator_entity: None }]
    );
    assert_eq!(state_timer.timer.send_once_done, TimerDoneEventType::UpdateState);
    assert_eq!(state_timer.parent_sequence, None);
    assert_eq!(update.path_updated, MonsterStrayPathUpdated { monster_entity: EntityId(20), new_delta: delta() });

    let again = MonsterStrayPathUpdaterPlugin::replace_current_path_get_new_delta(
        &chasing,
        EntityId(20),
        MonsterState::Fleeing(EntityId(9)),
        &movers,
        EntityId(61),
        bits(1.0),
        delta(),
    )
    .unwrap();
    assert!(again.removal.despawn_calculator);

    let lost = monster(MonsterState::Chasing(EntityId(7)));
    assert_eq!(
        MonsterStrayPathUpdaterPlugin::replace_current_path_get_new_delta(
            &lost,
            EntityId(20),
            MonsterState::Idle,
            &Some(vec![mover(1, None)]),
            EntityId(60),
            bits(2.5),
            delta(),
        )
        .unwrap_err(),
        MonsterError::NoMovementTimerHadTheListedPathParentSequence
    );
}

#[test]
fn state_changes_lay_stray_paths_only_toward_targets() {
    let movers = Some(vec![mover(3, Some(50))]);
    let m = monster(MonsterState::Fleeing(EntityId(8)));
    let to_flee = MonsterStateChanged {
        monster: EntityId(20),
        next_state: MonsterState::Fleeing(EntityId(8)),
        previous_state: MonsterState::Chasing(EntityId(7)),
    };
    let laid = MonsterStrayPathUpdaterPlugin::listen_for_state_set(&to_flee, &m, &movers, EntityId(60), bits(2.0), delta())
        .unwrap()
        .unwrap();
    assert!(laid.removal.despawn_calculator);
    assert_eq!(laid.path_updated.monster_entity, EntityId(20));
    let to_idle = MonsterStateChanged { next_state: MonsterState::Idle, ..to_flee };
    assert!(MonsterStrayPathUpdaterPlugin::listen_for_state_set(&to_idle, &m, &movers, EntityId(60), bits(2.0), delta())
        .is_none());
    let unassigned = Monster { path_timer_sequence: None, ..m };
    assert_eq!(
        MonsterStrayPathUpdaterPlugin::listen_for_state_set(&to_flee, &unassigned, &movers, EntityId(60), bits(2.0), delta())
            .unwrap()
            .unwrap_err(),
        MonsterError::MonsterHasNoPathTimerSequenceAssigned
    );
}

#[test]
fn stray_paths_follow_moving_targets_between_state_changes() {
    let movers = Some(vec![mover(3, Some(50))]);
    let m = monster(MonsterState::Chasing(EntityId(7)));
    let laid = MonsterStrayPathUpdaterPlugin::update_stray_path(0, &m, EntityId(20), true, &movers, EntityId(60), bits(2.0), delta())
        .unwrap()
        .unwrap();
    assert!(laid.removal.despawn_calculator);
    assert!(MonsterStrayPathUpdaterPlugin::update_stray_path(1, &m, EntityId(20), true, &movers, EntityId(60), bits(2.0), delta())
        .is_none());
    assert!(MonsterStrayPathUpdaterPlugin::update_stray_path(0, &m, EntityId(20), false, &movers, EntityId(60), bits(2.0), delta())
        .is_none());
    let idle = monster(MonsterState::Idle);
    assert!(MonsterStrayPathUpdaterPlugin::update_stray_path(0, &idle, EntityId(20), true, &movers, EntityId(60), bits(2.0), delta())
        .is_none());
}

#[test]
fn ending_a_stray_path_sends_its_timer_done_event() {
    let affected = vec![TimerAffectedEntity { affected_entity: EntityId(20), value_calculator_entity: Some(EntityId(103)) }];
    let movers = Some(vec![
        PathMover { mover: mover(2, Some(7)), send_once_done: TimerDoneEventType::Nothing, affected_entities: vec![] },
        PathMover {
            mover: mover(3, Some(50)),
            send_once_done: TimerDoneEventType::SetAnimationCycleByPathParentSequence,
            affected_entities: affected.clone(),
        },
    ]);
    let end = MonsterStrayPathEnderPlugin::despawn_stray_path_timer_and_get_done_event(Some(EntityId(50)), &movers).unwrap();
    assert_eq!(end.index, 1);
    assert_eq!(end.timer, EntityId(3));
    assert_eq!(end.value_calculator, EntityId(103));
    assert_eq!(end.done_event.event_type, TimerDoneEventType::SetAnimationCycleByPathParentSequence);
    assert_eq!(end.done_event.affected_entities, affected);
    assert_eq!(end.done_event.timer_entity, EntityId(3));
    assert_eq!(
        end.done_event.timer_parent_sequence,
        Some(TimerParentSequence { parent_sequence: EntityId(50), index_in_sequence: 2 })
    );
    assert_eq!(
        MonsterStrayPathEnderPlugin::despawn_stray_path_timer_and_get_done_event(Some(EntityId(51)), &movers).unwrap_err(),
        MonsterError::NoMovementTimerHadTheListedPathParentSequence
    );
    assert_eq!(
        MonsterStrayPathEnderPlugin::despawn_stray_path_timer_and_get_done_event(None, &movers).unwrap_err(),
        MonsterError::MonsterHasNoPathTimerSequenceAssigned
    );
    assert_eq!(
        MonsterStrayPathEnderPlugin::despawn_stray_path_timer_and_get_done_event(Some(EntityId(50)), &None).unwrap_err(),
        MonsterError::NoMovementAffectingTimerFound
    );
}

#[test]
fn monsters_fade_in_at_a_clear_spot_then_collide() {
    let fade = MonsterSpawnerPlugin::spawn_grace_period_timer(EntityId(70), EntityId(71));
    assert_eq!(
        fade.timer.affected_entities,
        vec![TimerAffectedEntity { affected_entity: EntityId(70), value_calculator_entity: Some(EntityId(71)) }]
    );
    assert_eq!(fade.timer.duration, TimerDuration::Seconds(F32Bits::from_bits(TIME_IT_TAKES_MONSTERS_TO_SPAWN_BITS)));
    assert_eq!(f32::from_bits(TIME_IT_TAKES_MONSTERS_TO_SPAWN_BITS), 2.0);
    assert_eq!(fade.timer.send_once_done, TimerDoneEventType::DeclareSpawnDone);
    assert_eq!(fade.parent_sequence, None);
    let attempts = vec![vec![bits(10.0)], vec![bits(300.0), bits(f32::NAN)]];
    assert_eq!(MonsterSpawnerPlugin::try_finding_place_for_monster(&attempts, bits(200.0)), Ok(1));
    assert_eq!(
        MonsterSpawnerPlugin::try_finding_place_for_monster(&attempts, bits(400.0)),
        Err(MonsterError::CouldntFindAPlaceToSpawnMonsterIn)
    );
}

#[test]
fn main_paths_loop_over_their_stretches() {
    let calculators = vec![EntityId(80), EntityId(81), EntityId(82)];
    let sequence = MonsterMainPathInitiationPlugin::spawn_path_timer_sequence(EntityId(20), bits(3.5), &calculators);
    assert!(sequence.looping);
    assert_eq!(sequence.timers.len(), 3);
    for (timer, calculator) in sequence.timers.iter().zip(calculators.iter()) {
        assert_eq!(
            timer.affected_entities,
            vec![TimerAffectedEntity { affected_entity: EntityId(20), value_calculator_entity: Some(*calculator) }]
        );
        assert_eq!(timer.duration, TimerDuration::Seconds(bits(3.5)));
        assert_eq!(timer.send_once_done, TimerDoneEventType::Nothing);
    }
    let mut m = monster(MonsterState::Idle);
    m.assign_path_timer_sequence(EntityId(90));
    assert_eq!(m.path_timer_sequence, Some(EntityId(90)));
    assert_eq!(m.state, MonsterState::Idle);
}

#[test]
fn monster_error_messages() {
    assert_eq!(
        MonsterError::CouldntFindAPlaceToSpawnMonsterIn.message(),
        "A monster spawn was requested but no valid place for it was found"
    );
    assert_eq!(
        MonsterError::NoMovementAffectingTimerFound.message(),
        "No affecting movement affecting timer was found"
    );
    assert_eq!(
        MonsterError::NoMovementTimerHadTheListedPathParentSequence.message(),
        "Found movement affecting timers, but none has the sequence listed in the monster's struct"
    );
    assert_eq!(
        MonsterError::NoPathSequenceFoundOnStateChange(MonsterState::Idle).message(),
        "Tried to manipulate path when changing to state Idle but no path sequence was found"
    );
    let target = EntityId((1u64 << 32) | 3);
    assert_eq!(
        MonsterError::NoPathSequenceFoundOnStateChange(MonsterState::Chasing(target)).message(),
        "Tried to manipulate path when changing to state Chasing(Entity { index: 3, generation: 1 }) but no path sequence was found"
    );
}

#[test]
fn ending_a_laid_stray_path_resumes_the_path_sequence() {
    let movers = vec![mover(1, None), mover(3, Some(50))];
    let chasing = monster(MonsterState::Chasing(EntityId(7)));
    let update = MonsterStrayPathUpdaterPlugin::replace_current_path_get_new_delta(
        &chasing,
        EntityId(20),
        MonsterState::Idle,
        &Some(movers.clone()),
        EntityId(60),
        bits(2.0),
        delta(),
    )
    .unwrap();
    let laid = &update.timer_fire_requests[0];
    let after = vec![
        PathMover { mover: movers[0], send_once_done: TimerDoneEventType::Nothing, affected_entities: vec![] },
        PathMover {
            mover: MovementTimer { timer: EntityId(99), value_calculator: EntityId(60), parent_sequence: laid.parent_sequence },
            send_once_done: laid.timer.send_once_done,
            affected_entities: laid.timer.affected_entities.clone(),
        },
    ];
    let end = MonsterStrayPathEnderPlugin::despawn_stray_path_timer_and_get_done_event(chasing.path_timer_sequence, &Some(after))
        .unwrap();
    assert_eq!(end.timer, EntityId(99));
    assert_eq!(end.value_calculator, EntityId(60));
    assert_eq!(end.done_event.event_type, TimerDoneEventType::SetAnimationCycleByPathParentSequence);
    assert_eq!(end.done_event.timer_parent_sequence, Some(update.removal.parent_sequence));
}

#[test]
fn monster_spawning_fades_in_a_monster_at_its_spot() {
    let spots = vec![1u8, 2u8];
    let attempts = vec![vec![bits(10.0)], vec![bits(200.0)]];
    let spawn = MonsterSpawnerPlugin::try_spawning_a_monster(None, &spots, &attempts, bits(100.0), bits(250.0), EntityId(70), EntityId(71))
        .unwrap();
    assert_eq!(spawn.spot, 2);
    assert_eq!(spawn.monster, Monster::spawning(bits(250.0)));
    assert_eq!(spawn.fade_in_timer, MonsterSpawnerPlugin::spawn_grace_period_timer(EntityId(70), EntityId(71)));
    let placed = MonsterSpawnerPlugin::try_spawning_a_monster(Some(9), &spots, &attempts, bits(100.0), bits(250.0), EntityId(70), EntityId(71))
        .unwrap();
    assert_eq!(placed.spot, 9);
    assert_eq!(
        MonsterSpawnerPlugin::try_spawning_a_monster(Some(9), &spots, &attempts, bits(500.0), bits(250.0), EntityId(70), EntityId(71))
            .unwrap_err(),
        MonsterError::CouldntFindAPlaceToSpawnMonsterIn
    );
}

fn path_mover(timer: u64, parent: Option<u64>, affected: usize) -> PathMover {
    PathMover {
        mover: mover(timer, parent),
        send_once_done: TimerDoneEventType::Nothing,
        affected_entities: (0..affected)
            .map(|k| TimerAffectedEntity { affected_entity: EntityId(600 + k as u64), value_calculator_entity: None })
            .collect(),
    }
}

#[test]
fn chases_restart_the_path_timers_towards_the_target() {
    let movers = vec![path_mover(1, None, 1), path_mover(2, Some(50), 2), path_mover(3, Some(7), 1), path_mover(4, Some(50), 0), path_mover(5, Some(50), 1)];
    let new_affected = TimerAffectedEntity { affected_entity: EntityId(20), value_calculator_entity: Some(EntityId(61)) };
    let resets = MonsterChaseUpdaterPlugin::reset_chase_timer_with_new_calculator(new_affected, bits(1.5), Some(EntityId(50)), &movers);
    assert_eq!(resets.iter().map(|r| r.index).collect::<Vec<_>>(), vec![1, 4]);
    assert_eq!(resets[0].timer, EntityId(2));
    assert_eq!(
        resets[0].affected_entities,
        vec![new_affected, TimerAffectedEntity { affected_entity: EntityId(601), value_calculator_entity: None }]
    );
    assert_eq!(resets[0].duration, TimerDuration::Seconds(bits(1.5)));
    assert_eq!(resets[1].affected_entities, vec![new_affected]);
    assert!(MonsterChaseUpdaterPlugin::reset_chase_timer_with_new_calculator(new_affected, bits(1.5), None, &movers).is_empty());

    let chasing = monster(MonsterState::Chasing(EntityId(7)));
    let some_movers = Some(movers);
    assert_eq!(
        MonsterChaseUpdaterPlugin::update_chasing_monster(&chasing, EntityId(20), true, &some_movers, EntityId(61), bits(1.5)),
        resets
    );
    assert!(MonsterChaseUpdaterPlugin::update_chasing_monster(&chasing, EntityId(20), false, &some_movers, EntityId(61), bits(1.5)).is_empty());
    let fleeing = monster(MonsterState::Fleeing(EntityId(7)));
    assert!(MonsterChaseUpdaterPlugin::update_chasing_monster(&fleeing, EntityId(20), true, &some_movers, EntityId(61), bits(1.5)).is_empty());
    assert!(MonsterChaseUpdaterPlugin::update_chasing_monster(&chasing, EntityId(20), true, &None, EntityId(61), bits(1.5)).is_empty());
}
