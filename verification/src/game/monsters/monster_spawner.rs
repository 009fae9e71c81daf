use vstd::prelude::*;
use crate::entity::EntityId;
use crate::float_bits::F32Bits;
use crate::game::monsters::monster::Monster;
use crate::game::monsters::monster_error::MonsterError;
use crate::game::monsters::monster_state::MonsterState;
use crate::random::{random_bool, random_in_range};
use crate::selection::{clear_of, first_clear_attempt};
use crate::timers::{TimerAffectedEntity, TimerDoneEventType, TimerDuration, TimerFireRequest};

verus! {

/// The shape of the path a spawned monster patrols.
#[derive(Debug, Clone, Copy, PartialEq, Eq, Structural)]
pub enum PathShape {
    /// Five points, walked in a cycle.
    Pentagon,
    /// Four corners, walked in a cycle.
    Square,
    /// Three points, walked there and back.
    BackAndForth,
}

impl PathShape {
    pub open spec fn of_code(code: usize) -> PathShape {
        if code == 0 {
            PathShape::Pentagon
        } else if code == 1 {
            PathShape::Square
        } else {
            PathShape::BackAndForth
        }
    }

    /// The shape a drawn path code stands for: 0 and 1 for the cycles, any
    /// other code for the walk there and back.
    pub fn from_code(code: usize) -> (r: PathShape)
        ensures
            r == PathShape::of_code(code),
    {
        if code == 0 {
            PathShape::Pentagon
        } else if code == 1 {
            PathShape::Square
        } else {
            PathShape::BackAndForth
        }
    }
}

/// The path drawn for a spawned monster.
#[derive(Debug, Clone, Copy, PartialEq, Eq, Structural)]
pub struct InitialPathChoice {
    pub shape: PathShape,
    /// Walked in reverse.
    pub reversed: bool,
}

/// How long a new monster takes to fade in, as the bits of an `f32` number of
/// seconds (two seconds).
pub const TIME_IT_TAKES_MONSTERS_TO_SPAWN_BITS: u32 = 0x4000_0000;

/// A monster just spawned: where it goes, the monster, and the timer it fades
/// in by.
#[derive(Debug, Clone, PartialEq, Eq)]
pub struct MonsterSpawn<T> {
    pub spot: T,
    pub monster: Monster,
    pub fade_in_timer: TimerFireRequest,
}

/// Spawns monsters.
pub struct MonsterSpawnerPlugin;

impl MonsterSpawnerPlugin {
    /// Draws the shape of a spawned monster's path (a code among `0..3`, see
    /// `PathShape::from_code`) and tosses for its direction. Both are chance:
    /// nothing is promised of the outcome.
    pub fn generate_initial_path_to_follow() -> InitialPathChoice {
        let code = random_in_range(0, 3);
        let shape = PathShape::from_code(code);
        let reversed = random_bool();
        InitialPathChoice { shape, reversed }
    }

    /// Where a monster spawns: at `override_spawning_spot` when given, else at
    /// the spot the search found. The search counts either way: when it found
    /// no free spot, no monster spawns, even at a given spot.
    pub fn choose_spawn_spot<T>(override_spawning_spot: Option<T>, searched: Result<T, MonsterError>) -> (r:
        Result<T, MonsterError>)
        ensures
            r == match searched {
                Err(e) => Err(e),
                Ok(found) => Ok(
                    match override_spawning_spot {
                        Some(spot) => spot,
                        None => found,
                    },
                ),
            },
    {
        match searched {
            Err(e) => Err(e),
            Ok(found) => Ok(
                match override_spawning_spot {
                    Some(spot) => spot,
                    None => found,
                },
            ),
        }
    }

    /// Where a monster can spawn: the first of the drawn spots (each given by
    /// its distances to the player and the bombs) with nothing closer than
    /// `safe_radius`, and an error when none is clear.
    pub fn try_finding_place_for_monster(attempt_distances: &Vec<Vec<F32Bits>>, safe_radius: F32Bits) -> (r:
        Result<usize, MonsterError>)
        ensures
            match r {
                Ok(i) => {
                    &&& i < attempt_distances.len()
                    &&& clear_of(attempt_distances@[i as int]@, safe_radius)
                    &&& forall|j: int|
                        0 <= j < i ==> !clear_of(#[trigger] attempt_distances@[j]@, safe_radius)
                },
                Err(e) => {
                    &&& e == MonsterError::CouldntFindAPlaceToSpawnMonsterIn
                    &&& forall|j: int|
                        0 <= j < attempt_distances.len() ==> !clear_of(
                            #[trigger] attempt_distances@[j]@,
                            safe_radius,
                        )
                },
            },
    {
        match first_clear_attempt(attempt_distances, safe_radius) {
            Some(i) => Ok(i),
            None => Err(MonsterError::CouldntFindAPlaceToSpawnMonsterIn),
        }
    }

    /// The timer a new monster `newborn_monster` fades in by, its transparency
    /// driven by `alpha_change_calculator`: once done, the monster's spawning is
    /// declared done.
    pub fn spawn_grace_period_timer(newborn_monster: EntityId, alpha_change_calculator: EntityId) -> (r:
        TimerFireRequest)
        ensures
            r.fires_once_on(
                TimerAffectedEntity {
                    affected_entity: newborn_monster,
                    value_calculator_entity: Some(alpha_change_calculator),
                },
                TimerDuration::Seconds(F32Bits { bits: TIME_IT_TAKES_MONSTERS_TO_SPAWN_BITS }),
                TimerDoneEventType::DeclareSpawnDone,
                None,
            ),
    {
        TimerFireRequest::for_single_entity(
            newborn_monster,
            Some(alpha_change_calculator),
            TimerDuration::Seconds(F32Bits::from_bits(TIME_IT_TAKES_MONSTERS_TO_SPAWN_BITS)),
            TimerDoneEventType::DeclareSpawnDone,
            None,
        )
    }

    /// Spawns a monster hearing as far as `hearing_ring_distance`, as the
    /// entity `monster_entity`: the search among `drawn_spots` (each at
    /// `attempt_distances` from what to keep away from) must find a clear spot,
    /// else its error comes back and nothing spawns; the monster then goes to
    /// `override_spawning_spot` when given, else to the spot found. It starts
    /// fading in, with no path yet, by its fade-in timer, its transparency
    /// driven by `alpha_change_calculator`.
    pub fn try_spawning_a_monster<T: Copy>(
        override_spawning_spot: Option<T>,
        drawn_spots: &Vec<T>,
        attempt_distances: &Vec<Vec<F32Bits>>,
        safe_radius: F32Bits,
        hearing_ring_distance: F32Bits,
        monster_entity: EntityId,
        alpha_change_calculator: EntityId,
    ) -> (r: Result<MonsterSpawn<T>, MonsterError>)
        requires
            drawn_spots.len() == attempt_distances.len(),
        ensures
            match r {
                Ok(spawn) => exists|i: int|
                    {
                        &&& 0 <= i < attempt_distances.len()
                        &&& clear_of(attempt_distances@[i]@, safe_radius)
                        &&& forall|j: int|
                            0 <= j < i ==> !clear_of(#[trigger] attempt_distances@[j]@, safe_radius)
                        &&& spawn.spot == match override_spawning_spot {
                            Some(spot) => spot,
                            None => drawn_spots@[i],
                        }
                        &&& spawn.monster == (Monster {
                            hearing_ring_distance,
                            state: MonsterState::Spawning,
                            path_timer_sequence: None,
                            animation_timer_sequence: None,
                        })
                        &&& spawn.fade_in_timer.fires_once_on(
                            TimerAffectedEntity {
                                affected_entity: monster_entity,
                                value_calculator_entity: Some(alpha_change_calculator),
                            },
                            TimerDuration::Seconds(F32Bits { bits: TIME_IT_TAKES_MONSTERS_TO_SPAWN_BITS }),
                            TimerDoneEventType::DeclareSpawnDone,
                            None,
                        )
                    },
                Err(e) => {
                    &&& e == MonsterError::CouldntFindAPlaceToSpawnMonsterIn
                    &&& forall|j: int|
                        0 <= j < attempt_distances.len() ==> !clear_of(
                            #[trigger] attempt_distances@[j]@,
                            safe_radius,
                        )
                },
            },
    {
        let found_index = Self::try_finding_place_for_monster(attempt_distances, safe_radius);
        let searched = match found_index {
            Ok(i) => Ok(drawn_spots[i]),
            Err(e) => Err(e),
        };
        let spot = match Self::choose_spawn_spot(override_spawning_spot, searched) {
            Ok(spot) => spot,
            Err(e) => {
                return Err(e);
            },
        };
        let monster = Monster::spawning(hearing_ring_distance);
        let fade_in_timer = Self::spawn_grace_period_timer(monster_entity, alpha_change_calculator);
        proof {
            if let Ok(i) = found_index {
                assert(0 <= i < attempt_distances.len());
            }
        }
        Ok(MonsterSpawn { spot, monster, fade_in_timer })
    }
}


/// The drawn path code picks the shape: 0 the pentagon, 1 the square, and
/// anything else the walk there and back.
pub proof fn lemma_path_codes(code: usize)
    ensures
        PathShape::of_code(0) == PathShape::Pentagon,
        PathShape::of_code(1) == PathShape::Square,
        code >= 2 ==> PathShape::of_code(code) == PathShape::BackAndForth,
{
}

} // verus!
