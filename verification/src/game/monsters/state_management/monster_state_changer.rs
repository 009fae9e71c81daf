use vstd::prelude::*;
use crate::entity::EntityId;
use crate::float_bits::F32Bits;
use crate::functionality_override::{FunctionalityOverride, FunctionalityOverrides};
use crate::game::bombs::bomb_state::BombState;
use crate::game::monsters::monster::Monster;
use crate::game::monsters::monster_events::MonsterStateChanged;
use crate::game::monsters::monster_state::MonsterState;
use crate::selection::{
    first_least, is_least_choice, least_choice, lemma_least_choice_determined, lemma_least_choice_exists,
};

verus! {

/// The radius of the collider by which a monster that finished fading in hits
/// the player, as the bits of an `f32` (twenty pixels).
pub const MONSTER_COLLIDER_RADIUS_BITS: u32 = 0x41A0_0000;

/// What lets a monster hit the player: a circle of radius `radius` around it.
#[derive(Debug, Clone, Copy, PartialEq, Eq, Structural)]
pub struct PlayerMonsterCollider {
    pub radius: F32Bits,
}

/// A player, with its distance from the monster.
#[derive(Debug, Clone, Copy, PartialEq, Eq, Structural)]
pub struct PlayerNearby {
    pub player_entity: EntityId,
    pub distance: F32Bits,
}

/// A bomb, with its distance from the monster and the time left before it
/// goes off.
#[derive(Debug, Clone, Copy, PartialEq, Eq, Structural)]
pub struct BombNearby {
    pub bomb_entity: EntityId,
    pub state: BombState,
    pub distance: F32Bits,
    pub time_until_explosion: F32Bits,
}

/// The monster hears what is strictly closer than its hearing ring.
pub open spec fn hears(monster: Monster, distance: F32Bits) -> bool {
    distance.less_than(monster.hearing_ring_distance)
}

/// The last of the players the monster hears, if it hears any.
pub open spec fn last_heard_player(monster: Monster, players: Seq<PlayerNearby>) -> Option<EntityId>
    decreases players.len(),
{
    if players.len() == 0 {
        None
    } else if hears(monster, players.last().distance) {
        Some(players.last().player_entity)
    } else {
        last_heard_player(monster, players.drop_last())
    }
}

/// A bomb worries the monster once it has been picked up and while the monster
/// hears it.
pub open spec fn worrying(monster: Monster, bomb: BombNearby) -> bool {
    bomb.state != BombState::PreHeld && hears(monster, bomb.distance)
}

pub open spec fn explosion_times(bombs: Seq<BombNearby>) -> Seq<F32Bits> {
    Seq::new(bombs.len(), |i: int| bombs[i].time_until_explosion)
}

pub open spec fn worrying_flags(monster: Monster, bombs: Seq<BombNearby>) -> Seq<bool> {
    Seq::new(bombs.len(), |i: int| worrying(monster, bombs[i]))
}

/// The bomb that poses the most danger: among the worrying bombs, the first
/// with the least time left (see `least_choice`).
pub open spec fn most_dangerous_bomb(monster: Monster, bombs: Seq<BombNearby>) -> Option<EntityId> {
    match least_choice(explosion_times(bombs), worrying_flags(monster, bombs)) {
        Some(i) => Some(bombs[i].bomb_entity),
        None => None,
    }
}

/// What the monster's surroundings call for: chasing the last player it hears;
/// failing that, fleeing the bomb that poses the most danger; failing that,
/// wandering its path.
pub open spec fn next_state_for(
    monster: Monster,
    players: Seq<PlayerNearby>,
    bombs: Seq<BombNearby>,
) -> MonsterState {
    match last_heard_player(monster, players) {
        Some(player) => MonsterState::Chasing(player),
        None => match most_dangerous_bomb(monster, bombs) {
            Some(bomb) => MonsterState::Fleeing(bomb),
            None => MonsterState::Idle,
        },
    }
}

/// Keeps each monster's state in line with what it hears.
pub struct MonsterStateChangerPlugin;

impl MonsterStateChangerPlugin {
    /// The bomb the monster should flee, if any; see `most_dangerous_bomb`.
    pub fn determine_most_danger_posing_bomb(monster: &Monster, bombs: &Vec<BombNearby>) -> (r: Option<
        EntityId,
    >)
        ensures
            r == most_dangerous_bomb(*monster, bombs@),
    {
        let mut times: Vec<F32Bits> = Vec::new();
        let mut worrying_bombs: Vec<bool> = Vec::new();
        let mut k: usize = 0;
        while k < bombs.len()
            invariant
                k <= bombs.len(),
                times.len() == k,
                worrying_bombs.len() == k,
                forall|j: int| 0 <= j < k ==> times@[j] == bombs@[j].time_until_explosion,
                forall|j: int| 0 <= j < k ==> worrying_bombs@[j] == worrying(*monster, bombs@[j]),
            decreases bombs.len() - k,
        {
            let bomb = bombs[k];
            times.push(bomb.time_until_explosion);
            worrying_bombs.push(
                bomb.state != BombState::PreHeld && bomb.distance.lt(&monster.hearing_ring_distance),
            );
            k = k + 1;
        }
        assert(times@ =~= explosion_times(bombs@));
        assert(worrying_bombs@ =~= worrying_flags(*monster, bombs@));
        match first_least(&times, &worrying_bombs) {
            Some(i) => Some(bombs[i].bomb_entity),
            None => None,
        }
    }

    /// The state the monster's surroundings call for; see `next_state_for`.
    pub fn check_environment_for_next_state(
        monster: &Monster,
        players: &Vec<PlayerNearby>,
        bombs: &Vec<BombNearby>,
    ) -> (r: MonsterState)
        ensures
            r == next_state_for(*monster, players@, bombs@),
    {
        let mut heard: Option<EntityId> = None;
        let mut k: usize = 0;
        while k < players.len()
            invariant
                k <= players.len(),
                heard == last_heard_player(*monster, players@.take(k as int)),
            decreases players.len() - k,
        {
            assert(players@.take(k + 1).drop_last() =~= players@.take(k as int));
            if players[k].distance.lt(&monster.hearing_ring_distance) {
                heard = Some(players[k].player_entity);
            }
            k = k + 1;
        }
        assert(players@.take(players.len() as int) =~= players@);
        match heard {
            Some(player) => MonsterState::Chasing(player),
            None => match Self::determine_most_danger_posing_bomb(monster, bombs) {
                Some(bomb) => MonsterState::Fleeing(bomb),
                None => MonsterState::Idle,
            },
        }
    }

    /// A frame's look around: a monster still fading in is left alone;
    /// otherwise it takes the state its surroundings call for, and the change,
    /// if there is one, is announced.
    pub fn update_monster_hearing_ring(
        monster: &mut Monster,
        monster_entity: EntityId,
        players: &Vec<PlayerNearby>,
        bombs: &Vec<BombNearby>,
    ) -> (changed: Option<MonsterStateChanged>)
        ensures
            ({
                let next = next_state_for(*old(monster), players@, bombs@);
                if old(monster).state == MonsterState::Spawning || next == old(monster).state {
                    &&& changed is None
                    &&& *final(monster) == *old(monster)
                } else {
                    &&& changed == Some(
                        MonsterStateChanged {
                            monster: monster_entity,
                            next_state: next,
                            previous_state: old(monster).state,
                        },
                    )
                    &&& *final(monster) == (Monster { state: next, ..*old(monster) })
                }
            }),
    {
        if monster.state == MonsterState::Spawning {
            return None;
        }
        let next_state = Self::check_environment_for_next_state(monster, players, bombs);
        if next_state != monster.state {
            let changed = MonsterStateChanged {
                monster: monster_entity,
                next_state,
                previous_state: monster.state,
            };
            monster.state = next_state;
            Some(changed)
        } else {
            None
        }
    }

    /// A requested look around (a stray path ended): the monster takes the
    /// state its surroundings call for, and the change is announced even when
    /// the state stays the same.
    pub fn listen_for_manual_danger_check_request(
        monster: &mut Monster,
        monster_entity: EntityId,
        players: &Vec<PlayerNearby>,
        bombs: &Vec<BombNearby>,
    ) -> (changed: MonsterStateChanged)
        ensures
            changed == (MonsterStateChanged {
                monster: monster_entity,
                next_state: next_state_for(*old(monster), players@, bombs@),
                previous_state: old(monster).state,
            }),
            *final(monster) == (Monster {
                state: next_state_for(*old(monster), players@, bombs@),
                ..*old(monster)
            }),
    {
        let next_state = Self::check_environment_for_next_state(monster, players, bombs);
        let changed = MonsterStateChanged {
            monster: monster_entity,
            next_state,
            previous_state: monster.state,
        };
        monster.state = next_state;
        changed
    }

    /// The monster finished fading in: it starts wandering, the change is
    /// announced, and from now on the monster collides with the player, by a
    /// collider of radius `MONSTER_COLLIDER_RADIUS_BITS`, unless the switch
    /// `DontCheckMonsterColliders` is on, which gives it none.
    pub fn declare_monster_spawning_done(
        monster: &mut Monster,
        monster_entity: EntityId,
        overrides: &FunctionalityOverrides,
    ) -> (r: (MonsterStateChanged, Option<PlayerMonsterCollider>))
        ensures
            r.0 == (MonsterStateChanged {
                monster: monster_entity,
                next_state: MonsterState::Idle,
                previous_state: old(monster).state,
            }),
            r.1 == (if overrides.is_enabled(FunctionalityOverride::DontCheckMonsterColliders) {
                None
            } else {
                Some(PlayerMonsterCollider { radius: F32Bits { bits: MONSTER_COLLIDER_RADIUS_BITS } })
            }),
            *final(monster) == (Monster { state: MonsterState::Idle, ..*old(monster) }),
    {
        let changed = MonsterStateChanged {
            monster: monster_entity,
            next_state: MonsterState::default(),
            previous_state: monster.state,
        };
        monster.state = MonsterState::default();
        let collider = if overrides.disabled(FunctionalityOverride::DontCheckMonsterColliders) {
            Some(PlayerMonsterCollider { radius: F32Bits::from_bits(MONSTER_COLLIDER_RADIUS_BITS) })
        } else {
            None
        };
        (changed, collider)
    }
}

} // verus!

verus! {

proof fn lemma_last_heard_player(monster: Monster, players: Seq<PlayerNearby>)
    ensures
        last_heard_player(monster, players) is Some <==> exists|i: int|
            0 <= i < players.len() && hears(monster, #[trigger] players[i].distance),
        last_heard_player(monster, players) matches Some(p) ==> exists|i: int|
            0 <= i < players.len() && hears(monster, #[trigger] players[i].distance)
                && players[i].player_entity == p,
    decreases players.len(),
{
    if players.len() > 0 {
        let rest = players.drop_last();
        lemma_last_heard_player(monster, rest);
        if !hears(monster, players.last().distance) {
            if exists|i: int| 0 <= i < players.len() && hears(monster, #[trigger] players[i].distance) {
                let i = choose|i: int| 0 <= i < players.len() && hears(monster, #[trigger] players[i].distance);
                assert(i < players.len() - 1);
                assert(rest[i] == players[i]);
            }
            if let Some(p) = last_heard_player(monster, rest) {
                let i = choose|i: int|
                    0 <= i < rest.len() && hears(monster, #[trigger] rest[i].distance)
                        && rest[i].player_entity == p;
                assert(players[i] == rest[i]);
            }
        } else {
            let i = players.len() - 1;
            assert(hears(monster, players[i].distance));
        }
    }
}

/// Monsters cannot see, they hear: a monster chases a player exactly when it
/// hears one, that is when some player is closer than its hearing ring, and
/// the player it chases is one it hears.
pub proof fn lemma_chases_only_heard_players(
    monster: Monster,
    players: Seq<PlayerNearby>,
    bombs: Seq<BombNearby>,
)
    ensures
        next_state_for(monster, players, bombs) is Chasing <==> exists|i: int|
            0 <= i < players.len() && hears(monster, #[trigger] players[i].distance),
        next_state_for(monster, players, bombs) matches MonsterState::Chasing(p) ==> exists|i: int|
            0 <= i < players.len() && hears(monster, #[trigger] players[i].distance)
                && players[i].player_entity == p,
{
    lemma_last_heard_player(monster, players);
}

/// A monster flees only a bomb it hears that has been picked up, and only when
/// it hears no player.
pub proof fn lemma_flees_only_worrying_bombs(
    monster: Monster,
    players: Seq<PlayerNearby>,
    bombs: Seq<BombNearby>,
)
    ensures
        next_state_for(monster, players, bombs) matches MonsterState::Fleeing(b) ==> {
            &&& forall|i: int| 0 <= i < players.len() ==> !hears(monster, #[trigger] players[i].distance)
            &&& exists|i: int|
                0 <= i < bombs.len() && #[trigger] bombs[i].bomb_entity == b && worrying(
                    monster,
                    bombs[i],
                )
        },
        next_state_for(monster, players, bombs) == MonsterState::Idle ==> forall|i: int|
            0 <= i < bombs.len() ==> !worrying(monster, #[trigger] bombs[i]),
{
    lemma_last_heard_player(monster, players);
    let keys = explosion_times(bombs);
    let flags = worrying_flags(monster, bombs);
    match least_choice(keys, flags) {
        Some(i) => {
            let j = choose|j: int| crate::selection::is_least_choice(keys, flags, keys.len() as int, Some(j));
            assert(flags[j]);
        },
        None => {
            assert forall|i: int| 0 <= i < bombs.len() implies !worrying(monster, #[trigger] bombs[i]) by {
                if worrying(monster, bombs[i]) {
                    assert(flags[i]);
                    crate::selection::lemma_least_choice_exists(keys, flags, i);
                }
            }
        },
    }
}

/// What a monster hears decides its state, not what it was doing: once it has
/// taken the state its surroundings call for, looking again at the same
/// surroundings changes nothing.
pub proof fn lemma_hearing_update_settles(
    monster: Monster,
    players: Seq<PlayerNearby>,
    bombs: Seq<BombNearby>,
)
    ensures
        ({
            let settled = Monster { state: next_state_for(monster, players, bombs), ..monster };
            next_state_for(settled, players, bombs) == settled.state
        }),
{
    let settled = Monster { state: next_state_for(monster, players, bombs), ..monster };
    assert(worrying_flags(settled, bombs) =~= worrying_flags(monster, bombs));
    assert(last_heard_player(settled, players) == last_heard_player(monster, players)) by {
        lemma_last_heard_same_ring(monster, settled, players);
    }
}

proof fn lemma_last_heard_same_ring(a: Monster, b: Monster, players: Seq<PlayerNearby>)
    requires
        a.hearing_ring_distance == b.hearing_ring_distance,
    ensures
        last_heard_player(a, players) == last_heard_player(b, players),
    decreases players.len(),
{
    if players.len() > 0 {
        lemma_last_heard_same_ring(a, b, players.drop_last());
    }
}


proof fn lemma_last_heard_is_latest(monster: Monster, players: Seq<PlayerNearby>)
    ensures
        last_heard_player(monster, players) matches Some(p) ==> exists|i: int|
            {
                &&& 0 <= i < players.len()
                &&& hears(monster, #[trigger] players[i].distance)
                &&& players[i].player_entity == p
                &&& forall|j: int| i < j < players.len() ==> !hears(monster, #[trigger] players[j].distance)
            },
    decreases players.len(),
{
    if players.len() > 0 {
        let rest = players.drop_last();
        lemma_last_heard_is_latest(monster, rest);
        if !hears(monster, players.last().distance) {
            if let Some(p) = last_heard_player(monster, rest) {
                let i = choose|i: int|
                    {
                        &&& 0 <= i < rest.len()
                        &&& hears(monster, #[trigger] rest[i].distance)
                        &&& rest[i].player_entity == p
                        &&& forall|j: int| i < j < rest.len() ==> !hears(monster, #[trigger] rest[j].distance)
                    };
                assert(players[i] == rest[i]);
                assert forall|j: int| i < j < players.len() implies !hears(
                    monster,
                    #[trigger] players[j].distance,
                ) by {
                    if j < players.len() - 1 {
                        assert(players[j] == rest[j]);
                    }
                }
            }
        }
    }
}

/// What a monster takes up, from what it hears. It hears what lies strictly
/// inside its hearing ring (not what lies on it). It chases the last listed of
/// the players it hears; hearing none, it flees a bomb that has been picked up
/// (held, thrown or gone off) and that it hears, one with the least time left
/// when that time is a number; with neither, it wanders.
pub proof fn lemma_what_a_monster_takes_up(
    monster: Monster,
    players: Seq<PlayerNearby>,
    bombs: Seq<BombNearby>,
)
    ensures
        forall|d: F32Bits| #[trigger] hears(monster, d) <==> d.less_than(monster.hearing_ring_distance),
        forall|b: BombNearby|
            #[trigger] worrying(monster, b) <==> (b.state != BombState::PreHeld
                && b.distance.less_than(monster.hearing_ring_distance)),
        (exists|i: int| 0 <= i < players.len() && hears(monster, #[trigger] players[i].distance))
            ==> exists|i: int|
            {
                &&& 0 <= i < players.len()
                &&& hears(monster, #[trigger] players[i].distance)
                &&& forall|j: int| i < j < players.len() ==> !hears(monster, #[trigger] players[j].distance)
                &&& next_state_for(monster, players, bombs) == MonsterState::Chasing(
                    players[i].player_entity,
                )
            },
        (forall|i: int| 0 <= i < players.len() ==> !hears(monster, #[trigger] players[i].distance))
            && (exists|i: int| 0 <= i < bombs.len() && worrying(monster, #[trigger] bombs[i])) ==> exists|i: int|
            {
                &&& 0 <= i < bombs.len()
                &&& worrying(monster, #[trigger] bombs[i])
                &&& next_state_for(monster, players, bombs) == MonsterState::Fleeing(bombs[i].bomb_entity)
                &&& !bombs[i].time_until_explosion.nan() ==> forall|j: int|
                    0 <= j < bombs.len() && worrying(monster, #[trigger] bombs[j])
                        && !bombs[j].time_until_explosion.nan() ==> bombs[i].time_until_explosion.ordinal()
                        <= bombs[j].time_until_explosion.ordinal()
            },
        (forall|i: int| 0 <= i < players.len() ==> !hears(monster, #[trigger] players[i].distance))
            && (forall|i: int| 0 <= i < bombs.len() ==> !worrying(monster, #[trigger] bombs[i]))
            ==> next_state_for(monster, players, bombs) == MonsterState::Idle,
{
    lemma_last_heard_player(monster, players);
    lemma_last_heard_is_latest(monster, players);
    let keys = explosion_times(bombs);
    let flags = worrying_flags(monster, bombs);
    if exists|i: int| 0 <= i < bombs.len() && worrying(monster, #[trigger] bombs[i]) {
        let w = choose|i: int| 0 <= i < bombs.len() && worrying(monster, #[trigger] bombs[i]);
        assert(flags[w]);
        lemma_least_choice_exists(keys, flags, w);
        let k = choose|k: int| is_least_choice(keys, flags, keys.len() as int, Some(k));
        assert(least_choice(keys, flags) == Some(k)) by {
            lemma_least_choice_determined(keys, flags, Some(k));
        }
        assert(flags[k] && worrying(monster, bombs[k]));
        assert(keys[k] == bombs[k].time_until_explosion);
        assert forall|j: int|
            0 <= j < bombs.len() && worrying(monster, #[trigger] bombs[j])
                && !bombs[j].time_until_explosion.nan() && !bombs[k].time_until_explosion.nan()
                implies bombs[k].time_until_explosion.ordinal() <= bombs[j].time_until_explosion.ordinal() by {
            assert(flags[j] && keys[j] == bombs[j].time_until_explosion);
        }
    } else {
        if least_choice(keys, flags) is Some {
            let k = choose|i: int| is_least_choice(keys, flags, keys.len() as int, Some(i));
            assert(flags[k]);
            assert(worrying(monster, bombs[k]));
        }
    }
}

} // verus!
