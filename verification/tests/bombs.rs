use soul_bomb_monster_hunt::entity::EntityId;
use soul_bomb_monster_hunt::float_bits::{F32Bits, Vec3Bits};
use soul_bomb_monster_hunt::functionality_override::{FunctionalityOverride, FunctionalityOverrides};
use soul_bomb_monster_hunt::game::app_state::AppState;
use soul_bomb_monster_hunt::game::bombs::bomb::{
    Bomb, BombAndTextColors, ABOUT_TO_EXPLODE_TIME_CIEL, BOMB_MAX_TIME, BOMB_MIN_TIME,
};
use soul_bomb_monster_hunt::game::bombs::bomb_error::BombError;
use soul_bomb_monster_hunt::game::bombs::bomb_event_channel::BombRequest;
use soul_bomb_monster_hunt::game::bombs::bomb_events::BombExploded;
use soul_bomb_monster_hunt::game::bombs::bomb_explosion_previewer::{
    BombExplosionPreviewerPlugin, CastHit, PreviewToggle,
};
use soul_bomb_monster_hunt::game::bombs::bomb_picking::{BombDistance, BombPickingPlugin, BOMB_PULL_TIME_BITS};
use soul_bomb_monster_hunt::game::bombs::bomb_spawner::{
    BombSpawnPlan, BombSpawnerPlugin, BombSpot, MAX_BOMB_COUNT, TIME_IT_TAKES_BOMB_TO_GROW_BITS,
};
use soul_bomb_monster_hunt::game::bombs::bomb_state::BombState;
use soul_bomb_monster_hunt::game::bombs::bomb_throwing::BombThrowingPlugin;
use soul_bomb_monster_hunt::game::bombs::bomb_throwing_manager::BombThrowingManagerPlugin;
use soul_bomb_monster_hunt::game::bombs::bomb_ticker::BombTickerPlugin;
use soul_bomb_monster_hunt::game::bombs::explosion_manager::{
    Blast, BlastCandidate, ContactCandidate, ContactCollider, ContactReach, ExplosionManagerPlugin,
    PLAYER_SCORE_POINTS_ON_MONSTER_KILLED, POST_BOMB_HIT_DESPAWN_TIME_BITS,
};
use soul_bomb_monster_hunt::game::monsters::monster_state::MonsterState;
use soul_bomb_monster_hunt::game::player::Player;
use soul_bomb_monster_hunt::palette::PaletteColor;
use soul_bomb_monster_hunt::timers::{
    DespawnPolicy, SpawnRequestType, TimeScaleRequest, TimerAffectedEntity, TimerDoneEventType,
    TimerDuration,
};

fn bits(x: f32) -> F32Bits {
    F32Bits::from_bits(x.to_bits())
}

fn origin() -> Vec3Bits {
    Vec3Bits { x: bits(0.0), y: bits(0.0), z: bits(0.0) }
}

#[test]
fn new_bombs_have_a_fuse_in_range_and_colours() {
    for _ in 0..200 {
        let bomb = Bomb::new(&FunctionalityOverrides::none());
        assert!(BOMB_MIN_TIME <= bomb.full_duration && bomb.full_duration < BOMB_MAX_TIME);
        assert_eq!(bomb.state, BombState::PreHeld);
        assert_eq!(bomb.about_to_explode, bomb.full_duration <= ABOUT_TO_EXPLODE_TIME_CIEL);
        assert!(bomb.to_colors().is_some());
    }
}

#[test]
fn short_fuses_are_about_to_explode() {
    let short = Bomb::with_full_duration(ABOUT_TO_EXPLODE_TIME_CIEL);
    assert!(short.about_to_explode);
    let long = Bomb::with_full_duration(ABOUT_TO_EXPLODE_TIME_CIEL + 1);
    assert!(!long.about_to_explode);
}

#[test]
fn bomb_colours_follow_state() {
    let mut bomb = Bomb::with_full_duration(7);
    assert_eq!(
        bomb.to_colors(),
        Some(BombAndTextColors { bomb: PaletteColor::White, text: PaletteColor::Silver })
    );
    bomb.state = BombState::Held;
    assert_eq!(
        bomb.to_colors(),
        Some(BombAndTextColors { bomb: PaletteColor::DarkOrange, text: PaletteColor::Yellow })
    );
    bomb.state = BombState::PostHeld;
    assert_eq!(bomb.to_colors(), None);
    bomb.about_to_explode = true;
    assert_eq!(
        bomb.to_colors(),
        Some(BombAndTextColors { bomb: PaletteColor::Red, text: PaletteColor::White })
    );
}

#[test]
fn bomb_error_messages() {
    assert_eq!(
        BombError::CouldntFindAPlaceToSpawnBombIn.message(),
        "A bomb spawn was requested but no valid place for it was found"
    );
    assert_eq!(
        BombError::AskedToTickAPreHeldBomb.message(),
        "A bomb ticking request was sent but the bomb wasn't yet held"
    );
    assert_eq!(
        BombError::CouldntParseTimerIntoInteger.message(),
        "Wanted to update a bombs text but it couldn't be parsed into an integer"
    );
}

#[test]
fn closest_bomb_within_reach_is_picked() {
    let bombs = vec![
        BombDistance { bomb_entity: EntityId(1), bomb_distance: bits(30.0) },
        BombDistance { bomb_entity: EntityId(2), bomb_distance: bits(10.0) },
        BombDistance { bomb_entity: EntityId(3), bomb_distance: bits(10.0) },
        BombDistance { bomb_entity: EntityId(4), bomb_distance: bits(80.0) },
        BombDistance { bomb_entity: EntityId(5), bomb_distance: bits(f32::NAN) },
    ];
    assert_eq!(BombPickingPlugin::try_getting_closest_bomb(&bombs, bits(50.0)), Some(EntityId(2)));
    assert_eq!(BombPickingPlugin::try_getting_closest_bomb(&bombs, bits(10.0)), None);
    assert_eq!(BombPickingPlugin::try_getting_closest_bomb(&vec![], bits(50.0)), None);
}

#[test]
fn picking_up_holds_the_bomb_and_slows_time() {
    let mut player = Player { held_bomb: None };
    let mut bomb = Bomb::with_full_duration(6);
    let pick_up = BombPickingPlugin::make_player_hold_bomb(
        &mut player,
        EntityId(9),
        &mut bomb,
        bits(150.0),
        EntityId(30),
        EntityId(31),
    );
    assert_eq!(player.held_bomb, Some(EntityId(9)));
    assert_eq!(bomb.state, BombState::Held);
    assert_eq!(pick_up.bomb_color, Some(PaletteColor::DarkOrange));
    assert_eq!(pick_up.time_scale, TimeScaleRequest::SlowMotion);
    assert_eq!(
        pick_up.pull_timer.timer.affected_entities,
        vec![TimerAffectedEntity { affected_entity: EntityId(9), value_calculator_entity: Some(EntityId(30)) }]
    );
    assert_eq!(pick_up.pull_timer.timer.duration, TimerDuration::Seconds(F32Bits::from_bits(BOMB_PULL_TIME_BITS)));
    assert_eq!(f32::from_bits(BOMB_PULL_TIME_BITS), 0.1);
    assert_eq!(pick_up.pull_timer.timer.send_once_done, TimerDoneEventType::Nothing);
    assert_eq!(pick_up.pull_timer.parent_sequence, None);
    assert_eq!(
        pick_up.countdown_timer.timer.affected_entities,
        vec![TimerAffectedEntity { affected_entity: EntityId(9), value_calculator_entity: Some(EntityId(31)) }]
    );
    assert_eq!(pick_up.countdown_timer.timer.duration, TimerDuration::WholeSeconds(6));
    assert_eq!(pick_up.countdown_timer.timer.send_once_done, TimerDoneEventType::ExplodeInRadius(bits(150.0)));
    assert_eq!(pick_up.countdown_timer.parent_sequence, None);
}

#[test]
fn throwing_releases_the_held_bomb_and_restores_time() {
    let mut player = Player { held_bomb: Some(EntityId(4)) };
    let throw = BombThrowingPlugin::release_held_bomb(&mut player);
    assert_eq!(throw.thrown_bomb, Some(EntityId(4)));
    assert_eq!(throw.time_scale, Some(TimeScaleRequest::NormalSpeed));
    assert_eq!(player.held_bomb, None);
    let again = BombThrowingPlugin::release_held_bomb(&mut player);
    assert_eq!(again.thrown_bomb, None);
    assert_eq!(again.time_scale, None);
}

#[test]
fn time_scale_follows_bomb_requests() {
    assert_eq!(BombThrowingManagerPlugin::time_scale_on(BombRequest::PickUp), TimeScaleRequest::SlowMotion);
    assert_eq!(BombThrowingManagerPlugin::time_scale_on(BombRequest::Release), TimeScaleRequest::NormalSpeed);
}

#[test]
fn thrown_and_exploded_bombs() {
    let mut bomb = Bomb::with_full_duration(8);
    bomb.state = BombState::Held;
    bomb.disconnect_from_player();
    assert_eq!(bomb.state, BombState::PostHeld);
    assert_eq!(bomb.explode(), None);
    assert_eq!(bomb.state, BombState::Exploded);
    let mut held = Bomb::with_full_duration(8);
    held.state = BombState::Held;
    assert_eq!(held.explode(), Some(TimeScaleRequest::NormalSpeed));
}

#[test]
fn countdown_text_steps() {
    assert_eq!(
        BombTickerPlugin::tick_bomb_text(BombState::PreHeld, "5", 4).unwrap_err(),
        BombError::AskedToTickAPreHeldBomb
    );
    assert_eq!(
        BombTickerPlugin::tick_bomb_text(BombState::Held, "!", 4).unwrap_err(),
        BombError::CouldntParseTimerIntoInteger
    );
    let tick = BombTickerPlugin::tick_bomb_text(BombState::Held, "5", 4).unwrap().unwrap();
    assert_eq!(tick.text, "4");
    assert!(!tick.tick_sound);
    let last = BombTickerPlugin::tick_bomb_text(BombState::PostHeld, "3", 3).unwrap().unwrap();
    assert_eq!(last.text, "3");
    assert!(last.tick_sound);
    assert!(BombTickerPlugin::tick_bomb_text(BombState::Held, "2", 3).unwrap().is_none());
}

#[test]
fn bomb_spawns_are_capped_and_placed_by_screen() {
    assert_eq!(BombSpawnerPlugin::plan_bomb_spawn(MAX_BOMB_COUNT, AppState::Game), BombSpawnPlan::NoSpawn);
    assert_eq!(BombSpawnerPlugin::plan_bomb_spawn(0, AppState::Menu), BombSpawnPlan::AtMenuSpot);
    assert_eq!(BombSpawnerPlugin::plan_bomb_spawn(MAX_BOMB_COUNT - 1, AppState::Game), BombSpawnPlan::AtFreeSpot);
    assert_eq!(BombSpawnerPlugin::countdown_label(&Bomb::with_full_duration(12)), "12");
}

#[test]
fn thrown_bombs_touch_monsters_and_bombs() {
    let reach = ContactReach { chasing_monster: bits(40.0), monster: bits(30.0), bomb: bits(20.0) };
    let bomb = EntityId(1);
    let chasing = ContactCandidate {
        entity: EntityId(2),
        monster_state: Some(MonsterState::Chasing(EntityId(7))),
        bomb_tagged: false,
        distance: bits(35.0),
    };
    assert_eq!(ExplosionManagerPlugin::contact_collider(bomb, &chasing), Some(ContactCollider::ChasingMonster));
    assert!(ExplosionManagerPlugin::touches(bomb, &chasing, &reach));
    let idle = ContactCandidate { monster_state: Some(MonsterState::Idle), ..chasing };
    assert!(!ExplosionManagerPlugin::touches(bomb, &idle, &reach));
    let other_bomb = ContactCandidate { monster_state: None, bomb_tagged: true, distance: bits(20.0), ..chasing };
    assert!(ExplosionManagerPlugin::touches(bomb, &other_bomb, &reach));
    let itself = ContactCandidate { entity: bomb, ..other_bomb };
    assert_eq!(ExplosionManagerPlugin::contact_collider(bomb, &itself), None);
    let scenery = ContactCandidate { monster_state: None, bomb_tagged: false, distance: bits(0.0), ..chasing };
    assert!(!ExplosionManagerPlugin::touches(bomb, &scenery, &reach));
}

fn candidate(id: u64, distance: f32) -> BlastCandidate {
    BlastCandidate {
        entity: EntityId(id),
        currently_affected_by_bomb: false,
        distance: bits(distance),
        is_monster: false,
        is_player: false,
        is_bomb: false,
        has_timer_calculators: false,
    }
}

#[test]
fn an_explosion_blasts_what_it_reaches_once() {
    let exploding = EntityId(1);
    let mut candidates = vec![
        BlastCandidate { is_bomb: true, ..candidate(1, 0.0) },
        BlastCandidate { is_monster: true, has_timer_calculators: true, ..candidate(2, 50.0) },
        BlastCandidate { is_monster: true, ..candidate(3, 150.0) },
        BlastCandidate { is_player: true, ..candidate(4, 99.0) },
        BlastCandidate { is_bomb: true, ..candidate(5, 100.0) },
        BlastCandidate { is_monster: true, currently_affected_by_bomb: true, ..candidate(6, 10.0) },
    ];
    let plan = ExplosionManagerPlugin::explode_bomb(exploding, &mut candidates, bits(100.0), bits(120.0));
    assert_eq!(plan.monster_hit_count, 1);
    assert!(plan.hit_player);
    assert!(plan.despawn_now.is_empty());
    let reached: Vec<EntityId> = plan.blasts.iter().map(|b| b.entity).collect();
    assert_eq!(reached, vec![EntityId(1), EntityId(2), EntityId(4), EntityId(5)]);
    assert!(!plan.blasts[0].knock_back);
    assert_eq!(
        plan.blasts[0].done_event,
        TimerDoneEventType::DespawnAffectedEntities(DespawnPolicy::DespawnSelf)
    );
    assert_eq!(
        plan.blasts[1].done_event,
        TimerDoneEventType::DespawnAffectedEntities(DespawnPolicy::DespawnSelfAndAllThatAffectsIt)
    );
    assert_eq!(plan.blasts[3].done_event, TimerDoneEventType::ExplodeInRadius(bits(120.0)));
    assert!(candidates[0].currently_affected_by_bomb);
    assert!(!candidates[2].currently_affected_by_bomb);

    let again = ExplosionManagerPlugin::explode_bomb(exploding, &mut candidates, bits(100.0), bits(120.0));
    assert!(again.blasts.is_empty());
    assert_eq!(again.monster_hit_count, 0);
    assert!(!again.hit_player);
    assert_eq!(again.despawn_now, vec![exploding]);
}

#[test]
fn explosion_side_effects() {
    let kill = BombExploded { location: origin(), monster_hit_count: 3, hit_player: false };
    let effects = ExplosionManagerPlugin::manage_bomb_explosion_side_effects(&kill);
    assert_eq!(effects.score_to_append, Some(3 * PLAYER_SCORE_POINTS_ON_MONSTER_KILLED));
    assert!(!effects.game_over);
    let suicide = BombExploded { location: origin(), monster_hit_count: 0, hit_player: true };
    let effects = ExplosionManagerPlugin::manage_bomb_explosion_side_effects(&suicide);
    assert_eq!(effects.score_to_append, None);
    assert!(effects.game_over);
}

#[test]
fn bombs_caught_in_explosions_show_danger() {
    let mut bomb = Bomb::with_full_duration(9);
    assert!(ExplosionManagerPlugin::mark_bomb_in_explosion(&mut bomb, bits(200.0), bits(100.0)).is_none());
    assert_eq!(bomb.state, BombState::PreHeld);
    let look = ExplosionManagerPlugin::mark_bomb_in_explosion(&mut bomb, bits(100.0), bits(100.0)).unwrap();
    assert_eq!(look.text, "!");
    assert_eq!(look.colors, BombAndTextColors { bomb: PaletteColor::Red, text: PaletteColor::White });
    assert_eq!(bomb.state, BombState::Exploded);
    assert!(bomb.about_to_explode);
    assert_eq!(
        bomb.to_colors(),
        Some(BombAndTextColors { bomb: PaletteColor::Red, text: PaletteColor::White })
    );
    assert!(ExplosionManagerPlugin::mark_bomb_in_explosion(&mut bomb, bits(0.0), bits(100.0)).is_none());
    assert_eq!(
        ExplosionManagerPlugin::determine_done_event_type(false, true, false, bits(5.0)),
        TimerDoneEventType::ExplodeInRadius(bits(5.0))
    );
}

#[test]
fn preview_meets_the_nearest_collider() {
    let held = EntityId(1);
    let hits = vec![
        CastHit { entity: EntityId(1), intersection_distance: Some(bits(1.0)) },
        CastHit { entity: EntityId(2), intersection_distance: Some(bits(40.0)) },
        CastHit { entity: EntityId(3), intersection_distance: None },
        CastHit { entity: EntityId(4), intersection_distance: Some(bits(25.0)) },
        CastHit { entity: EntityId(5), intersection_distance: Some(bits(90.0)) },
    ];
    assert_eq!(BombExplosionPreviewerPlugin::closest_collision(held, bits(60.0), &hits), Some(bits(25.0)));
    assert_eq!(BombExplosionPreviewerPlugin::closest_collision(held, bits(20.0), &hits), None);
    let nan = BombExplosionPreviewerPlugin::closest_collision(held, bits(f32::NAN), &hits).unwrap();
    assert!(f32::from_bits(nan.bits).is_nan());
}

#[test]
fn preview_follows_bomb_holders() {
    assert_eq!(BombExplosionPreviewerPlugin::toggle_bomb_explosion_preview(&vec![]), PreviewToggle::Unchanged);
    let players = vec![Player { held_bomb: None }, Player { held_bomb: Some(EntityId(3)) }];
    assert_eq!(
        BombExplosionPreviewerPlugin::toggle_bomb_explosion_preview(&players),
        PreviewToggle::Show { player_index: 1, held_bomb: EntityId(3) }
    );
    assert_eq!(
        BombExplosionPreviewerPlugin::toggle_bomb_explosion_preview(&vec![Player { held_bomb: None }]),
        PreviewToggle::Hide
    );
}

#[test]
fn fuse_lengths_vary() {
    let mut seen = Vec::new();
    for _ in 0..400 {
        let duration = Bomb::new(&FunctionalityOverrides::none()).full_duration;
        if !seen.contains(&duration) {
            seen.push(duration);
        }
    }
    assert_eq!(seen.len(), BOMB_MAX_TIME - BOMB_MIN_TIME);
}

#[test]
fn throwing_after_picking_up_throws_that_bomb() {
    let mut player = Player { held_bomb: None };
    let mut bomb = Bomb::with_full_duration(5);
    let pick_up = BombPickingPlugin::make_player_hold_bomb(
        &mut player,
        EntityId(21),
        &mut bomb,
        bits(150.0),
        EntityId(22),
        EntityId(23),
    );
    assert_eq!(pick_up.time_scale, TimeScaleRequest::SlowMotion);
    let throw = BombThrowingPlugin::release_held_bomb(&mut player);
    assert_eq!(throw.thrown_bomb, Some(EntityId(21)));
    assert_eq!(throw.time_scale, Some(TimeScaleRequest::NormalSpeed));
}

#[test]
fn bombs_grow_before_they_collide() {
    let grow = BombSpawnerPlugin::bomb_grow_timer(EntityId(40), EntityId(41));
    assert_eq!(
        grow.timer.affected_entities,
        vec![TimerAffectedEntity { affected_entity: EntityId(40), value_calculator_entity: Some(EntityId(41)) }]
    );
    assert_eq!(grow.timer.duration, TimerDuration::Seconds(F32Bits::from_bits(TIME_IT_TAKES_BOMB_TO_GROW_BITS)));
    assert_eq!(f32::from_bits(TIME_IT_TAKES_BOMB_TO_GROW_BITS), 1.0);
    assert_eq!(
        grow.timer.send_once_done,
        TimerDoneEventType::SpawnChildForAffectedEntities(SpawnRequestType::BombText)
    );
    assert_eq!(grow.parent_sequence, None);
    let bomb = Bomb::with_full_duration(7);
    let grown = BombSpawnerPlugin::listen_for_bombs_done_growing(
        TimerDoneEventType::SpawnChildForAffectedEntities(SpawnRequestType::BombText),
        &bomb,
    )
    .unwrap();
    assert_eq!(grown.label, "7");
    assert_eq!(grown.text_color, PaletteColor::Silver);
    assert!(BombSpawnerPlugin::listen_for_bombs_done_growing(TimerDoneEventType::Nothing, &bomb).is_none());
    assert!(BombSpawnerPlugin::listen_for_bombs_done_growing(
        TimerDoneEventType::SpawnChildForAffectedEntities(SpawnRequestType::Bomb),
        &bomb
    )
    .is_none());
}

#[test]
fn bombs_spawn_at_the_first_clear_spot() {
    let attempts = vec![
        vec![bits(300.0), bits(20.0)],
        vec![bits(150.0), bits(100.0)],
        vec![bits(500.0), bits(400.0)],
    ];
    assert_eq!(
        BombSpawnerPlugin::try_finding_place_for_bomb(&FunctionalityOverrides::none(), AppState::Game, &attempts, bits(100.0)),
        Ok(BombSpot::Drawn(1))
    );
    assert_eq!(
        BombSpawnerPlugin::try_finding_place_for_bomb(&FunctionalityOverrides::none(), AppState::Game, &attempts, bits(350.0)),
        Ok(BombSpot::Drawn(2))
    );
    assert_eq!(
        BombSpawnerPlugin::try_finding_place_for_bomb(&FunctionalityOverrides::none(), AppState::Game, &attempts, bits(1000.0)),
        Err(BombError::CouldntFindAPlaceToSpawnBombIn)
    );
    assert_eq!(
        BombSpawnerPlugin::try_finding_place_for_bomb(&FunctionalityOverrides::none(), AppState::Menu, &attempts, bits(1000.0)),
        Ok(BombSpot::MenuSpot)
    );
    assert_eq!(
        BombSpawnerPlugin::try_finding_place_for_bomb(&FunctionalityOverrides::none(), AppState::Game, &vec![], bits(1.0)),
        Err(BombError::CouldntFindAPlaceToSpawnBombIn)
    );
}

#[test]
fn only_thrown_bombs_explode_on_contact() {
    let reach = ContactReach { chasing_monster: bits(40.0), monster: bits(30.0), bomb: bits(20.0) };
    let near_monster = ContactCandidate {
        entity: EntityId(2),
        monster_state: Some(MonsterState::Idle),
        bomb_tagged: false,
        distance: bits(10.0),
    };
    let far_bomb = ContactCandidate { entity: EntityId(3), monster_state: None, bomb_tagged: true, distance: bits(90.0) };
    let near_bomb = ContactCandidate { entity: EntityId(4), monster_state: None, bomb_tagged: true, distance: bits(5.0) };
    let candidates = vec![near_monster, far_bomb, near_bomb];

    let mut held = Bomb::with_full_duration(6);
    held.state = BombState::Held;
    assert!(ExplosionManagerPlugin::explode_bombs_on_direct_collision(&mut held, EntityId(1), &candidates, &reach).is_empty());
    assert_eq!(held.state, BombState::Held);

    let mut lying = Bomb::with_full_duration(6);
    assert!(ExplosionManagerPlugin::explode_bombs_on_direct_collision(&mut lying, EntityId(1), &candidates, &reach).is_empty());
    assert_eq!(lying.state, BombState::PreHeld);

    let mut thrown = Bomb::with_full_duration(6);
    thrown.state = BombState::PostHeld;
    assert_eq!(
        ExplosionManagerPlugin::explode_bombs_on_direct_collision(&mut thrown, EntityId(1), &candidates, &reach),
        vec![0, 2]
    );
    assert_eq!(thrown.state, BombState::Exploded);

    let mut missed = Bomb::with_full_duration(6);
    missed.state = BombState::PostHeld;
    assert!(ExplosionManagerPlugin::explode_bombs_on_direct_collision(&mut missed, EntityId(1), &vec![far_bomb], &reach).is_empty());
    assert_eq!(missed.state, BombState::PostHeld);
}

#[test]
fn later_explosions_spare_what_was_blasted() {
    let mut candidates = vec![
        BlastCandidate { is_monster: true, ..candidate(2, 50.0) },
        BlastCandidate { is_monster: true, ..candidate(3, 150.0) },
    ];
    let first = ExplosionManagerPlugin::explode_bomb(EntityId(1), &mut candidates, bits(100.0), bits(100.0));
    assert_eq!(first.monster_hit_count, 1);
    candidates[0].distance = bits(0.0);
    let wider = ExplosionManagerPlugin::explode_bomb(EntityId(9), &mut candidates, bits(200.0), bits(100.0));
    let reached: Vec<EntityId> = wider.blasts.iter().map(|b| b.entity).collect();
    assert_eq!(reached, vec![EntityId(3)]);
    assert_eq!(wider.monster_hit_count, 1);
}

#[test]
fn bomb_spawning_puts_a_growing_bomb_at_the_chosen_spot() {
    let spots = vec!['a', 'b'];
    let attempts = vec![vec![bits(10.0)], vec![bits(200.0)]];
    let spawn = BombSpawnerPlugin::try_spawning_a_bomb(&FunctionalityOverrides::none(), 0, AppState::Game, 'z', 'm', &spots, &attempts, bits(100.0), EntityId(40), EntityId(41))
        .unwrap()
        .unwrap();
    assert_eq!(spawn.spot, 'b');
    assert_eq!(spawn.bomb.state, BombState::PreHeld);
    assert!(BOMB_MIN_TIME <= spawn.bomb.full_duration && spawn.bomb.full_duration < BOMB_MAX_TIME);
    assert_eq!(spawn.grow_timer, BombSpawnerPlugin::bomb_grow_timer(EntityId(40), EntityId(41)));
    let on_menu = BombSpawnerPlugin::try_spawning_a_bomb(&FunctionalityOverrides::none(), 0, AppState::Menu, 'z', 'm', &spots, &attempts, bits(100.0), EntityId(40), EntityId(41))
        .unwrap()
        .unwrap();
    assert_eq!(on_menu.spot, 'm');
    assert_eq!(
        BombSpawnerPlugin::try_spawning_a_bomb(&FunctionalityOverrides::none(), MAX_BOMB_COUNT, AppState::Game, 'z', 'm', &spots, &attempts, bits(100.0), EntityId(40), EntityId(41)),
        Ok(None)
    );
    assert_eq!(
        BombSpawnerPlugin::try_spawning_a_bomb(&FunctionalityOverrides::none(), 1, AppState::Game, 'z', 'm', &spots, &attempts, bits(500.0), EntityId(40), EntityId(41)),
        Err(BombError::CouldntFindAPlaceToSpawnBombIn)
    );
}

#[test]
fn debug_switches_change_bombs() {
    let mut overrides = FunctionalityOverrides::none();
    assert!(overrides.disabled(FunctionalityOverride::AlwaysSpawnBombsInMiddle));
    overrides.all_bombs_explode_after_one_second = true;
    assert!(overrides.enabled(FunctionalityOverride::AllBombsExplodeAfterOneSecond));
    let quick = Bomb::new(&overrides);
    assert_eq!(quick.full_duration, 1);
    assert!(quick.about_to_explode);
    overrides.always_spawn_bombs_in_middle = true;
    let attempts = vec![vec![bits(10.0)]];
    assert_eq!(
        BombSpawnerPlugin::try_finding_place_for_bomb(&overrides, AppState::Menu, &attempts, bits(100.0)),
        Ok(BombSpot::Middle)
    );
    let spawn = BombSpawnerPlugin::try_spawning_a_bomb(&overrides, 0, AppState::Game, 'z', 'm', &vec!['a'], &attempts, bits(100.0), EntityId(40), EntityId(41))
        .unwrap()
        .unwrap();
    assert_eq!(spawn.spot, 'z');
    assert_eq!(spawn.bomb.full_duration, 1);
}

#[test]
fn blasts_are_carried_out_by_knock_back_timers() {
    let blasts = vec![
        Blast { entity: EntityId(1), knock_back: false, done_event: TimerDoneEventType::DespawnAffectedEntities(DespawnPolicy::DespawnSelf) },
        Blast { entity: EntityId(5), knock_back: true, done_event: TimerDoneEventType::ExplodeInRadius(bits(120.0)) },
    ];
    let timers = ExplosionManagerPlugin::knock_back_and_destroy(&blasts, &vec![None, Some(EntityId(50))]);
    assert_eq!(timers.len(), 2);
    assert_eq!(
        timers[0].timer.affected_entities,
        vec![TimerAffectedEntity { affected_entity: EntityId(1), value_calculator_entity: None }]
    );
    assert_eq!(timers[0].timer.send_once_done, TimerDoneEventType::DespawnAffectedEntities(DespawnPolicy::DespawnSelf));
    assert_eq!(
        timers[1].timer.affected_entities,
        vec![TimerAffectedEntity { affected_entity: EntityId(5), value_calculator_entity: Some(EntityId(50)) }]
    );
    assert_eq!(timers[1].timer.duration, TimerDuration::Seconds(F32Bits::from_bits(POST_BOMB_HIT_DESPAWN_TIME_BITS)));
    assert_eq!(f32::from_bits(POST_BOMB_HIT_DESPAWN_TIME_BITS), 0.5);
    assert_eq!(timers[1].timer.send_once_done, TimerDoneEventType::ExplodeInRadius(bits(120.0)));
    assert_eq!(timers[1].parent_sequence, None);
}

#[test]
fn two_explosions_blast_each_entity_once() {
    let mut candidates = vec![
        BlastCandidate { is_monster: true, ..candidate(2, 50.0) },
        BlastCandidate { is_monster: true, ..candidate(3, 150.0) },
        BlastCandidate { is_monster: true, ..candidate(4, 90.0) },
    ];
    let first = ExplosionManagerPlugin::explode_bomb(EntityId(1), &mut candidates, bits(100.0), bits(100.0));
    let second = ExplosionManagerPlugin::explode_bomb(EntityId(9), &mut candidates, bits(1000.0), bits(100.0));
    for a in &first.blasts {
        for b in &second.blasts {
            assert_ne!(a.entity, b.entity);
        }
    }
    assert_eq!(first.monster_hit_count + second.monster_hit_count, 3);
}
