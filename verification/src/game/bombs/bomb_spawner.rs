use vstd::prelude::*;
use crate::decimal::{decimal_chars, usize_to_decimal};
use crate::game::app_state::AppState;
use crate::entity::EntityId;
use crate::float_bits::F32Bits;
use crate::functionality_override::{FunctionalityOverride, FunctionalityOverrides};
use crate::game::bombs::bomb::{Bomb, BOMB_MAX_TIME, BOMB_MIN_TIME};
use crate::game::bombs::bomb_error::BombError;
use crate::game::bombs::tags::BombTag;
use crate::palette::PaletteColor;
use crate::selection::{clear_of, first_clear_attempt};
use crate::timers::{TimerAffectedEntity, TimerDoneEventType, TimerDuration, TimerFireRequest, SpawnRequestType};

verus! {

/// No bomb is spawned while this many are around.
pub const MAX_BOMB_COUNT: usize = 5;

/// Where a requested bomb goes.
#[derive(Debug, Clone, Copy, PartialEq, Eq, Structural)]
pub enum BombSpawnPlan {
    /// Enough bombs are around already.
    NoSpawn,
    /// On the menu, bombs lie at a fixed spot.
    AtMenuSpot,
    /// In the game, a random spot away from the player and the other bombs.
    AtFreeSpot,
}

/// How long a new bomb takes to grow to full size, as the bits of an `f32`
/// number of seconds (one second).
pub const TIME_IT_TAKES_BOMB_TO_GROW_BITS: u32 = 0x3F80_0000;

/// Where a new bomb goes.
#[derive(Debug, Clone, Copy, PartialEq, Eq, Structural)]
pub enum BombSpot {
    /// The middle of the world, where the switch `AlwaysSpawnBombsInMiddle`
    /// puts every bomb.
    Middle,
    /// The fixed spot of the menu.
    MenuSpot,
    /// The drawn spot of this index.
    Drawn(usize),
}

/// The spot a new bomb goes to, for bombs requested in `app_state` with the
/// drawn spots at `attempt_distances` from what to keep away from: the middle
/// when the switch `AlwaysSpawnBombsInMiddle` is on; else the menu spot on the
/// menu; in the game, the first drawn spot with nothing closer than
/// `safe_radius`, and an error when none is clear.
pub open spec fn bomb_spot_outcome(
    overrides: FunctionalityOverrides,
    app_state: AppState,
    attempt_distances: Seq<Vec<F32Bits>>,
    safe_radius: F32Bits,
    r: Result<BombSpot, BombError>,
) -> bool {
    if overrides.is_enabled(FunctionalityOverride::AlwaysSpawnBombsInMiddle) {
        r == Ok::<BombSpot, BombError>(BombSpot::Middle)
    } else if app_state == AppState::Menu {
        r == Ok::<BombSpot, BombError>(BombSpot::MenuSpot)
    } else {
        match r {
            Ok(BombSpot::Drawn(i)) => {
                &&& i < attempt_distances.len()
                &&& clear_of(attempt_distances[i as int]@, safe_radius)
                &&& forall|j: int| 0 <= j < i ==> !clear_of(#[trigger] attempt_distances[j]@, safe_radius)
            },
            Ok(BombSpot::MenuSpot) => false,
            Ok(BombSpot::Middle) => false,
            Err(e) => {
                &&& e == BombError::CouldntFindAPlaceToSpawnBombIn
                &&& forall|j: int|
                    0 <= j < attempt_distances.len() ==> !clear_of(#[trigger] attempt_distances[j]@, safe_radius)
            },
        }
    }
}

/// A bomb just spawned: where it goes, the bomb, and the timer it grows by.
#[derive(Debug, Clone, PartialEq, Eq)]
pub struct BombSpawn<T> {
    pub spot: T,
    pub bomb: Bomb,
    pub grow_timer: TimerFireRequest,
}

/// What a bomb gets once grown: the tag that lets it collide, and the
/// countdown text, with the colour of its text and light.
#[derive(Debug, Clone, PartialEq, Eq)]
pub struct GrownBomb {
    pub tag: BombTag,
    pub label: String,
    pub text_color: PaletteColor,
}

/// Spawns bombs.
pub struct BombSpawnerPlugin;

impl BombSpawnerPlugin {
    /// Where a bomb requested while `existing_bombs` bombs are around goes.
    pub fn plan_bomb_spawn(existing_bombs: usize, app_state: AppState) -> (r: BombSpawnPlan)
        ensures
            r == (if existing_bombs >= MAX_BOMB_COUNT {
                BombSpawnPlan::NoSpawn
            } else if app_state == AppState::Menu {
                BombSpawnPlan::AtMenuSpot
            } else {
                BombSpawnPlan::AtFreeSpot
            }),
    {
        if existing_bombs >= MAX_BOMB_COUNT {
            BombSpawnPlan::NoSpawn
        } else {
            match app_state {
                AppState::Menu => BombSpawnPlan::AtMenuSpot,
                AppState::Game => BombSpawnPlan::AtFreeSpot,
            }
        }
    }

    /// The countdown text a bomb gets once it has grown: its fuse length in
    /// whole seconds.
    pub fn countdown_label(bomb: &Bomb) -> (label: String)
        ensures
            label@ == decimal_chars(bomb.full_duration as nat),
    {
        usize_to_decimal(bomb.full_duration)
    }

    /// Where a new bomb goes: the middle when the switch
    /// `AlwaysSpawnBombsInMiddle` is on; else the menu spot on the menu; in the
    /// game, the first of the drawn spots (each given by its distances to the
    /// player and the other bombs) with nothing closer than `safe_radius`, and
    /// an error when none is clear.
    pub fn try_finding_place_for_bomb(
        overrides: &FunctionalityOverrides,
        app_state: AppState,
        attempt_distances: &Vec<Vec<F32Bits>>,
        safe_radius: F32Bits,
    ) -> (r: Result<BombSpot, BombError>)
        ensures
            bomb_spot_outcome(*overrides, app_state, attempt_distances@, safe_radius, r),
    {
        if overrides.enabled(FunctionalityOverride::AlwaysSpawnBombsInMiddle) {
            return Ok(BombSpot::Middle);
        }
        if let AppState::Menu = app_state {
            return Ok(BombSpot::MenuSpot);
        }
        match first_clear_attempt(attempt_distances, safe_radius) {
            Some(i) => Ok(BombSpot::Drawn(i)),
            None => Err(BombError::CouldntFindAPlaceToSpawnBombIn),
        }
    }

    /// The timer a new bomb `bomb_entity` grows by, its size driven by
    /// `size_calculator`: once done, the bomb gets its countdown text.
    pub fn bomb_grow_timer(bomb_entity: EntityId, size_calculator: EntityId) -> (r: TimerFireRequest)
        ensures
            r.fires_once_on(
                TimerAffectedEntity {
                    affected_entity: bomb_entity,
                    value_calculator_entity: Some(size_calculator),
                },
                TimerDuration::Seconds(F32Bits { bits: TIME_IT_TAKES_BOMB_TO_GROW_BITS }),
                TimerDoneEventType::SpawnChildForAffectedEntities(SpawnRequestType::BombText),
                None,
            ),
    {
        TimerFireRequest::for_single_entity(
            bomb_entity,
            Some(size_calculator),
            TimerDuration::Seconds(F32Bits::from_bits(TIME_IT_TAKES_BOMB_TO_GROW_BITS)),
            TimerDoneEventType::SpawnChildForAffectedEntities(SpawnRequestType::BombText),
            None,
        )
    }

    /// What `bomb` gets when a timer acting on it is done with `done_event_type`:
    /// only once its growing is done does it become collidable and show its
    /// countdown, in its text colour; any other event gives it nothing.
    pub fn listen_for_bombs_done_growing(done_event_type: TimerDoneEventType, bomb: &Bomb) -> (r:
        Option<GrownBomb>)
        requires
            done_event_type == TimerDoneEventType::SpawnChildForAffectedEntities(
                SpawnRequestType::BombText,
            ) ==> bomb.colors() is Some,
        ensures
            r is Some <==> done_event_type == TimerDoneEventType::SpawnChildForAffectedEntities(
                SpawnRequestType::BombText,
            ),
            r matches Some(grown) ==> {
                &&& grown.label@ == decimal_chars(bomb.full_duration as nat)
                &&& grown.text_color == bomb.colors().unwrap().text
            },
    {
        if let TimerDoneEventType::SpawnChildForAffectedEntities(SpawnRequestType::BombText) =
            done_event_type
        {
            let colors = bomb.to_colors();
            match colors {
                Some(colors) => Some(
                    GrownBomb { tag: BombTag, label: Self::countdown_label(bomb), text_color: colors.text },
                ),
                None => None,
            }
        } else {
            None
        }
    }

    /// Spawns a bomb requested while `existing_bombs` bombs are around, in
    /// `app_state`: none once `MAX_BOMB_COUNT` bombs are around; else a bomb
    /// on the floor as `Bomb::new` makes it under `overrides`, at the spot
    /// `bomb_spot_outcome` gives (`middle_spot`, `menu_spot`, or the drawn
    /// spot among `drawn_spots`, each at `attempt_distances` from what to keep
    /// away from), as the entity `bomb_entity`, growing by its grow timer, its
    /// size driven by `size_calculator`. When no drawn spot is clear, the error
    /// comes back and nothing spawns. A spawn never takes the count of bombs
    /// past `MAX_BOMB_COUNT`.
    pub fn try_spawning_a_bomb<T: Copy>(
        overrides: &FunctionalityOverrides,
        existing_bombs: usize,
        app_state: AppState,
        middle_spot: T,
        menu_spot: T,
        drawn_spots: &Vec<T>,
        attempt_distances: &Vec<Vec<F32Bits>>,
        safe_radius: F32Bits,
        bomb_entity: EntityId,
        size_calculator: EntityId,
    ) -> (r: Result<Option<BombSpawn<T>>, BombError>)
        requires
            drawn_spots.len() == attempt_distances.len(),
        ensures
            existing_bombs >= MAX_BOMB_COUNT ==> r == Ok::<Option<BombSpawn<T>>, BombError>(None),
            r matches Ok(Some(_)) ==> existing_bombs + 1 <= MAX_BOMB_COUNT,
            existing_bombs < MAX_BOMB_COUNT ==> match r {
                Ok(None) => false,
                Ok(Some(spawn)) => exists|spot: BombSpot|
                    {
                        &&& bomb_spot_outcome(
                            *overrides,
                            app_state,
                            attempt_distances@,
                            safe_radius,
                            Ok::<BombSpot, BombError>(spot),
                        )
                        &&& spawn.spot == match spot {
                            BombSpot::Middle => middle_spot,
                            BombSpot::MenuSpot => menu_spot,
                            BombSpot::Drawn(i) => drawn_spots@[i as int],
                        }
                        &&& overrides.is_enabled(FunctionalityOverride::AllBombsExplodeAfterOneSecond)
                            ==> spawn.bomb.full_duration == 1
                        &&& !overrides.is_enabled(FunctionalityOverride::AllBombsExplodeAfterOneSecond)
                            ==> BOMB_MIN_TIME <= spawn.bomb.full_duration < BOMB_MAX_TIME
                        &&& spawn.bomb == Bomb::fresh(spawn.bomb.full_duration)
                        &&& spawn.grow_timer.fires_once_on(
                            TimerAffectedEntity {
                                affected_entity: bomb_entity,
                                value_calculator_entity: Some(size_calculator),
                            },
                            TimerDuration::Seconds(F32Bits { bits: TIME_IT_TAKES_BOMB_TO_GROW_BITS }),
                            TimerDoneEventType::SpawnChildForAffectedEntities(SpawnRequestType::BombText),
                            None,
                        )
                    },
                Err(e) => bomb_spot_outcome(
                    *overrides,
                    app_state,
                    attempt_distances@,
                    safe_radius,
                    Err::<BombSpot, BombError>(e),
                ),
            },
    {
        if existing_bombs >= MAX_BOMB_COUNT {
            return Ok(None);
        }
        let found = Self::try_finding_place_for_bomb(overrides, app_state, attempt_distances, safe_radius);
        let spot_kind = match found {
            Ok(spot_kind) => spot_kind,
            Err(e) => {
                return Err(e);
            },
        };
        let spot = match spot_kind {
            BombSpot::Middle => middle_spot,
            BombSpot::MenuSpot => menu_spot,
            BombSpot::Drawn(i) => drawn_spots[i],
        };
        let bomb = Bomb::new(overrides);
        let grow_timer = Self::bomb_grow_timer(bomb_entity, size_calculator);
        let spawn = BombSpawn { spot, bomb, grow_timer };
        assert(bomb_spot_outcome(
            *overrides,
            app_state,
            attempt_distances@,
            safe_radius,
            Ok::<BombSpot, BombError>(spot_kind),
        ));
        Ok(Some(spawn))
    }
}


/// Where a new bomb goes: every bomb to the middle when that switch is on;
/// otherwise on the menu always the menu spot, and in the game the first drawn
/// spot that nothing is closer to than the safe radius (see
/// `lemma_clear_spots`), the error coming only when no drawn spot is clear.
pub proof fn lemma_bomb_spots(
    overrides: FunctionalityOverrides,
    app_state: AppState,
    attempt_distances: Seq<Vec<F32Bits>>,
    safe_radius: F32Bits,
    r: Result<BombSpot, BombError>,
)
    requires
        bomb_spot_outcome(overrides, app_state, attempt_distances, safe_radius, r),
    ensures
        overrides.is_enabled(FunctionalityOverride::AlwaysSpawnBombsInMiddle) ==> r == Ok::<
            BombSpot,
            BombError,
        >(BombSpot::Middle),
        !overrides.is_enabled(FunctionalityOverride::AlwaysSpawnBombsInMiddle) && app_state
            == AppState::Menu ==> r == Ok::<BombSpot, BombError>(BombSpot::MenuSpot),
        !overrides.is_enabled(FunctionalityOverride::AlwaysSpawnBombsInMiddle) && app_state
            == AppState::Game ==> match r {
            Ok(BombSpot::Drawn(i)) => {
                &&& i < attempt_distances.len()
                &&& forall|k: int|
                    0 <= k < attempt_distances[i as int]@.len() ==> !(
                    #[trigger] attempt_distances[i as int]@[k]).less_than(safe_radius)
                &&& forall|j: int| 0 <= j < i ==> !clear_of(#[trigger] attempt_distances[j]@, safe_radius)
            },
            Err(e) => e == BombError::CouldntFindAPlaceToSpawnBombIn && forall|j: int|
                0 <= j < attempt_distances.len() ==> !clear_of(#[trigger] attempt_distances[j]@, safe_radius),
            _ => false,
        },
{
    if !overrides.is_enabled(FunctionalityOverride::AlwaysSpawnBombsInMiddle) && app_state
        == AppState::Game {
        if let Ok(BombSpot::Drawn(i)) = r {
            assert(clear_of(attempt_distances[i as int]@, safe_radius));
        }
    }
}

} // verus!
