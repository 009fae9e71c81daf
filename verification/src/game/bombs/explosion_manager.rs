use vstd::prelude::*;
use crate::entity::EntityId;
use crate::float_bits::F32Bits;
use crate::game::bombs::bomb::{Bomb, BombAndTextColors};
use crate::palette::PaletteColor;
use crate::game::bombs::bomb_events::BombExploded;
use crate::game::bombs::bomb_state::BombState;
use crate::game::monsters::monster_state::MonsterState;
use crate::timers::{
    DespawnPolicy, TimerAffectedEntity, TimerDoneEventType, TimerDuration, TimerFireRequest,
};

verus! {

/// Score the player earns for each monster an explosion kills.
pub const PLAYER_SCORE_POINTS_ON_MONSTER_KILLED: u32 = 1;

/// How long an entity reached by an explosion is knocked back before it goes
/// off or is despawned, as the bits of an `f32` number of seconds (half a
/// second).
pub const POST_BOMB_HIT_DESPAWN_TIME_BITS: u32 = 0x3F00_0000;

/// What a thrown bomb can run into.
#[derive(Debug, Clone, Copy, PartialEq, Eq, Structural)]
pub enum ContactCollider {
    /// A chasing monster, whose collider is larger.
    ChasingMonster,
    Monster,
    Bomb,
}

/// How close a thrown bomb must come to each kind of collider to go off: the
/// bomb's size plus the collider's radius.
#[derive(Debug, Clone, Copy, PartialEq, Eq, Structural)]
pub struct ContactReach {
    pub chasing_monster: F32Bits,
    pub monster: F32Bits,
    pub bomb: F32Bits,
}

/// Something a thrown bomb might hit, and how far it is from the bomb.
#[derive(Debug, Clone, Copy, PartialEq, Eq, Structural)]
pub struct ContactCandidate {
    pub entity: EntityId,
    /// The state of the entity if it is a monster.
    pub monster_state: Option<MonsterState>,
    /// Whether the entity is a grown bomb.
    pub bomb_tagged: bool,
    pub distance: F32Bits,
}

/// An entity that an explosion may reach, as the explosion sees it.
#[derive(Debug, Clone, Copy, PartialEq, Eq, Structural)]
pub struct BlastCandidate {
    pub entity: EntityId,
    /// Already taken care of by an explosion.
    pub currently_affected_by_bomb: bool,
    /// Distance from the exploding bomb, on the world plane.
    pub distance: F32Bits,
    pub is_monster: bool,
    pub is_player: bool,
    /// A grown bomb.
    pub is_bomb: bool,
    /// Some timer calculators act on the entity.
    pub has_timer_calculators: bool,
}

/// What an explosion does to one entity it reaches: it is knocked back (unless
/// it is the exploding bomb itself), and once the knock-back timer is done the
/// entity goes off in turn (another bomb) or is despawned.
#[derive(Debug, Clone, Copy, PartialEq, Eq, Structural)]
pub struct Blast {
    pub entity: EntityId,
    pub knock_back: bool,
    pub done_event: TimerDoneEventType,
}

/// Everything one explosion sets off.
#[derive(Debug)]
pub struct ExplosionPlan {
    /// Entities to despawn at once: the exploding bomb, when an earlier
    /// explosion already took care of it.
    pub despawn_now: Vec<EntityId>,
    /// The entities reached, in the order they were given.
    pub blasts: Vec<Blast>,
    pub monster_hit_count: usize,
    pub hit_player: bool,
}

/// What a thrown bomb sees in `candidate`: nothing when it is the bomb itself
/// or neither a monster nor a grown bomb.
pub open spec fn collider_of(bomb_entity: EntityId, candidate: ContactCandidate) -> Option<
    ContactCollider,
> {
    if candidate.entity == bomb_entity || (candidate.monster_state is None
        && !candidate.bomb_tagged) {
        None
    } else {
        match candidate.monster_state {
            Some(MonsterState::Chasing(_)) => Some(ContactCollider::ChasingMonster),
            Some(_) => Some(ContactCollider::Monster),
            None => Some(ContactCollider::Bomb),
        }
    }
}

pub open spec fn reach_for(reach: ContactReach, collider: ContactCollider) -> F32Bits {
    match collider {
        ContactCollider::ChasingMonster => reach.chasing_monster,
        ContactCollider::Monster => reach.monster,
        ContactCollider::Bomb => reach.bomb,
    }
}

/// The thrown bomb touches `candidate`.
pub open spec fn touches(bomb_entity: EntityId, candidate: ContactCandidate, reach: ContactReach) -> bool {
    match collider_of(bomb_entity, candidate) {
        None => false,
        Some(collider) => candidate.distance.at_most(reach_for(reach, collider)),
    }
}

/// What becomes of an entity reached by an explosion once knocked back: a bomb
/// other than the exploding one goes off with `chain_radius`; anything else is
/// despawned, together with what acts on it if anything does.
pub open spec fn done_event_for(
    is_self: bool,
    is_bomb: bool,
    has_timer_calculators: bool,
    chain_radius: F32Bits,
) -> TimerDoneEventType {
    if is_bomb && !is_self {
        TimerDoneEventType::ExplodeInRadius(chain_radius)
    } else if has_timer_calculators {
        TimerDoneEventType::DespawnAffectedEntities(DespawnPolicy::DespawnSelfAndAllThatAffectsIt)
    } else {
        TimerDoneEventType::DespawnAffectedEntities(DespawnPolicy::DespawnSelf)
    }
}

/// The explosion reaches `candidate`: not yet taken care of, and within the
/// explosion radius.
pub open spec fn reached(candidate: BlastCandidate, radius: F32Bits) -> bool {
    !candidate.currently_affected_by_bomb && candidate.distance.at_most(radius)
}

pub open spec fn blast_for(exploding: EntityId, candidate: BlastCandidate, chain_radius: F32Bits) -> Blast {
    Blast {
        entity: candidate.entity,
        knock_back: candidate.entity != exploding,
        done_event: done_event_for(
            candidate.entity == exploding,
            candidate.is_bomb,
            candidate.has_timer_calculators,
            chain_radius,
        ),
    }
}

/// The blasts of an explosion, in the order of the candidates.
pub open spec fn blasts_of(
    exploding: EntityId,
    candidates: Seq<BlastCandidate>,
    radius: F32Bits,
    chain_radius: F32Bits,
) -> Seq<Blast>
    decreases candidates.len(),
{
    if candidates.len() == 0 {
        Seq::empty()
    } else {
        let earlier = blasts_of(exploding, candidates.drop_last(), radius, chain_radius);
        if reached(candidates.last(), radius) {
            earlier.push(blast_for(exploding, candidates.last(), chain_radius))
        } else {
            earlier
        }
    }
}

/// The exploding bomb, when an earlier explosion already took care of it.
pub open spec fn despawned_now(exploding: EntityId, candidates: Seq<BlastCandidate>) -> Seq<EntityId>
    decreases candidates.len(),
{
    if candidates.len() == 0 {
        Seq::empty()
    } else {
        let earlier = despawned_now(exploding, candidates.drop_last());
        let last = candidates.last();
        if last.currently_affected_by_bomb && last.entity == exploding {
            earlier.push(last.entity)
        } else {
            earlier
        }
    }
}

/// How many monsters the explosion reaches.
pub open spec fn monsters_reached(candidates: Seq<BlastCandidate>, radius: F32Bits) -> nat
    decreases candidates.len(),
{
    if candidates.len() == 0 {
        0
    } else {
        monsters_reached(candidates.drop_last(), radius) + if reached(candidates.last(), radius)
            && candidates.last().is_monster {
            1nat
        } else {
            0nat
        }
    }
}

/// The explosion reaches the player.
pub open spec fn player_reached(candidates: Seq<BlastCandidate>, radius: F32Bits) -> bool {
    exists|i: int|
        0 <= i < candidates.len() && reached(candidates[i], radius) && #[trigger] candidates[i].is_player
}

/// Each reached candidate is now taken care of; nothing else changes.
pub open spec fn marked_after(
    before: Seq<BlastCandidate>,
    after: Seq<BlastCandidate>,
    radius: F32Bits,
) -> bool {
    &&& after.len() == before.len()
    &&& forall|i: int|
        0 <= i < before.len() ==> #[trigger] after[i] == (BlastCandidate {
            currently_affected_by_bomb: before[i].currently_affected_by_bomb || reached(
                before[i],
                radius,
            ),
            ..before[i]
        })
}

proof fn lemma_monsters_reached_bounded(candidates: Seq<BlastCandidate>, radius: F32Bits)
    ensures
        monsters_reached(candidates, radius) <= candidates.len(),
    decreases candidates.len(),
{
    if candidates.len() > 0 {
        lemma_monsters_reached_bounded(candidates.drop_last(), radius);
    }
}

/// Sets bombs off and carries out their explosions.
pub struct ExplosionManagerPlugin;

impl ExplosionManagerPlugin {
    /// The kind of collider a thrown bomb sees in `candidate`, if any.
    pub fn contact_collider(bomb_entity: EntityId, candidate: &ContactCandidate) -> (r: Option<
        ContactCollider,
    >)
        ensures
            r == collider_of(bomb_entity, *candidate),
    {
        if candidate.entity == bomb_entity || (candidate.monster_state.is_none()
            && !candidate.bomb_tagged) {
            None
        } else {
            match candidate.monster_state {
                Some(MonsterState::Chasing(_)) => Some(ContactCollider::ChasingMonster),
                Some(_) => Some(ContactCollider::Monster),
                None => Some(ContactCollider::Bomb),
            }
        }
    }

    /// Whether a thrown bomb touches `candidate` and so goes off.
    pub fn touches(bomb_entity: EntityId, candidate: &ContactCandidate, reach: &ContactReach) -> (r:
        bool)
        ensures
            r == touches(bomb_entity, *candidate, *reach),
    {
        match Self::contact_collider(bomb_entity, candidate) {
            None => false,
            Some(ContactCollider::ChasingMonster) => candidate.distance.le(&reach.chasing_monster),
            Some(ContactCollider::Monster) => candidate.distance.le(&reach.monster),
            Some(ContactCollider::Bomb) => candidate.distance.le(&reach.bomb),
        }
    }

    /// A bomb goes off on contact only when it was thrown (`PostHeld` as the
    /// frame starts): it explodes once for each of `candidates` it touches, in
    /// their order, and is then exploded. A bomb in any other state touches
    /// nothing and stays as it is. Returns the indices of the candidates it
    /// touched; a thrown bomb was never held, so time is left alone.
    pub fn explode_bombs_on_direct_collision(
        bomb: &mut Bomb,
        bomb_entity: EntityId,
        candidates: &Vec<ContactCandidate>,
        reach: &ContactReach,
    ) -> (explosions: Vec<usize>)
        ensures
            old(bomb).state != BombState::PostHeld ==> explosions@.len() == 0,
            forall|k: int|
                0 <= k < explosions@.len() ==> {
                    &&& explosions@[k] < candidates.len()
                    &&& touches(bomb_entity, candidates@[explosions@[k] as int], *reach)
                },
            forall|k1: int, k2: int|
                0 <= k1 < k2 < explosions@.len() ==> explosions@[k1] < explosions@[k2],
            old(bomb).state == BombState::PostHeld ==> forall|i: int|
                0 <= i < candidates.len() && touches(bomb_entity, #[trigger] candidates@[i], *reach)
                    ==> exists|k: int| 0 <= k < explosions@.len() && explosions@[k] == i,
            *final(bomb) == (if explosions@.len() > 0 {
                Bomb { state: BombState::Exploded, ..*old(bomb) }
            } else {
                *old(bomb)
            }),
    {
        let mut explosions: Vec<usize> = Vec::new();
        if bomb.state != BombState::PostHeld {
            return explosions;
        }
        let mut i: usize = 0;
        while i < candidates.len()
            invariant
                i <= candidates.len(),
                forall|k: int|
                    0 <= k < explosions@.len() ==> {
                        &&& explosions@[k] < i
                        &&& touches(bomb_entity, candidates@[explosions@[k] as int], *reach)
                    },
                forall|k1: int, k2: int|
                    0 <= k1 < k2 < explosions@.len() ==> explosions@[k1] < explosions@[k2],
                forall|j: int|
                    0 <= j < i && touches(bomb_entity, #[trigger] candidates@[j], *reach) ==> exists|
                        k: int,
                    | 0 <= k < explosions@.len() && explosions@[k] == j,
            decreases candidates.len() - i,
        {
            if Self::touches(bomb_entity, &candidates[i], reach) {
                let ghost before = explosions@;
                explosions.push(i);
                assert forall|j: int|
                    0 <= j < i && touches(bomb_entity, #[trigger] candidates@[j], *reach) implies exists|
                        k: int,
                    | 0 <= k < explosions@.len() && explosions@[k] == j by {
                    let k = choose|k: int| 0 <= k < before.len() && before[k] == j;
                    assert(explosions@[k] == j);
                }
                assert(explosions@[explosions@.len() - 1] == i);
            }
            i = i + 1;
        }
        if explosions.len() > 0 {
            bomb.state = BombState::Exploded;
        }
        explosions
    }

    /// The timers that carry out `blasts`, one per blast in their order: each
    /// acts on the blasted entity alone, through its knock-back calculator in
    /// `knock_back_calculators` (given exactly for the blasts that knock back),
    /// runs `POST_BOMB_HIT_DESPAWN_TIME_BITS` seconds, announces the blast's
    /// done event, and belongs to no sequence.
    pub fn knock_back_and_destroy(blasts: &Vec<Blast>, knock_back_calculators: &Vec<Option<EntityId>>) -> (r:
        Vec<TimerFireRequest>)
        requires
            blasts.len() == knock_back_calculators.len(),
            forall|i: int|
                0 <= i < blasts.len() ==> (#[trigger] knock_back_calculators@[i] is Some
                    <==> blasts@[i].knock_back),
        ensures
            r@.len() == blasts.len(),
            forall|i: int|
                0 <= i < blasts.len() ==> (#[trigger] r@[i]).fires_once_on(
                    TimerAffectedEntity {
                        affected_entity: blasts@[i].entity,
                        value_calculator_entity: knock_back_calculators@[i],
                    },
                    TimerDuration::Seconds(F32Bits { bits: POST_BOMB_HIT_DESPAWN_TIME_BITS }),
                    blasts@[i].done_event,
                    None,
                ),
    {
        let mut r: Vec<TimerFireRequest> = Vec::new();
        let mut i: usize = 0;
        while i < blasts.len()
            invariant
                i <= blasts.len(),
                blasts.len() == knock_back_calculators.len(),
                r@.len() == i,
                forall|j: int|
                    0 <= j < i ==> (#[trigger] r@[j]).fires_once_on(
                        TimerAffectedEntity {
                            affected_entity: blasts@[j].entity,
                            value_calculator_entity: knock_back_calculators@[j],
                        },
                        TimerDuration::Seconds(F32Bits { bits: POST_BOMB_HIT_DESPAWN_TIME_BITS }),
                        blasts@[j].done_event,
                        None,
                    ),
            decreases blasts.len() - i,
        {
            let timer = TimerFireRequest::for_single_entity(
                blasts[i].entity,
                knock_back_calculators[i],
                TimerDuration::Seconds(F32Bits::from_bits(POST_BOMB_HIT_DESPAWN_TIME_BITS)),
                blasts[i].done_event,
                None,
            );
            r.push(timer);
            i = i + 1;
        }
        r
    }

    /// What becomes of an entity reached by an explosion once knocked back.
    pub fn determine_done_event_type(
        is_self: bool,
        is_bomb: bool,
        has_timer_calculators: bool,
        chain_radius: F32Bits,
    ) -> (r: TimerDoneEventType)
        ensures
            r == done_event_for(is_self, is_bomb, has_timer_calculators, chain_radius),
    {
        if is_bomb && !is_self {
            TimerDoneEventType::ExplodeInRadius(chain_radius)
        } else {
            let despawn_policy = if has_timer_calculators {
                DespawnPolicy::DespawnSelfAndAllThatAffectsIt
            } else {
                DespawnPolicy::DespawnSelf
            };
            TimerDoneEventType::DespawnAffectedEntities(despawn_policy)
        }
    }

    /// The explosion of `exploding` with radius `radius`: every candidate not
    /// yet taken care of and within the radius is reached, marked as taken care
    /// of and blasted; the exploding bomb itself is despawned at once when an
    /// earlier explosion took care of it already. Reports how many monsters
    /// were reached and whether the player was.
    pub fn explode_bomb(
        exploding: EntityId,
        candidates: &mut Vec<BlastCandidate>,
        radius: F32Bits,
        chain_radius: F32Bits,
    ) -> (plan: ExplosionPlan)
        ensures
            marked_after(old(candidates)@, final(candidates)@, radius),
            plan.blasts@ == blasts_of(exploding, old(candidates)@, radius, chain_radius),
            plan.despawn_now@ == despawned_now(exploding, old(candidates)@),
            plan.monster_hit_count == monsters_reached(old(candidates)@, radius),
            plan.hit_player == player_reached(old(candidates)@, radius),
    {
        let ghost before = candidates@;
        let mut despawn_now: Vec<EntityId> = Vec::new();
        let mut blasts: Vec<Blast> = Vec::new();
        let mut monster_hit_count: usize = 0;
        let mut hit_player = false;
        let mut i: usize = 0;
        while i < candidates.len()
            invariant
                i <= candidates.len(),
                candidates.len() == before.len(),
                forall|j: int| i <= j < before.len() ==> #[trigger] candidates@[j] == before[j],
                forall|j: int|
                    0 <= j < i ==> #[trigger] candidates@[j] == (BlastCandidate {
                        currently_affected_by_bomb: before[j].currently_affected_by_bomb
                            || reached(before[j], radius),
                        ..before[j]
                    }),
                blasts@ == blasts_of(exploding, before.take(i as int), radius, chain_radius),
                despawn_now@ == despawned_now(exploding, before.take(i as int)),
                monster_hit_count == monsters_reached(before.take(i as int), radius),
                hit_player == player_reached(before.take(i as int), radius),
            decreases candidates.len() - i,
        {
            let ghost prefix = before.take(i as int);
            let ghost next = before.take(i + 1);
            assert(next.drop_last() =~= prefix);
            assert(next.last() == before[i as int]);
            proof {
                lemma_monsters_reached_bounded(prefix, radius);
            }
            let candidate = candidates[i];
            if candidate.currently_affected_by_bomb {
                if candidate.entity == exploding {
                    despawn_now.push(candidate.entity);
                }
            } else if candidate.distance.le(&radius) {
                let mut marked = candidate;
                marked.currently_affected_by_bomb = true;
                candidates.set(i, marked);
                let done_event = Self::determine_done_event_type(
                    candidate.entity == exploding,
                    candidate.is_bomb,
                    candidate.has_timer_calculators,
                    chain_radius,
                );
                blasts.push(
                    Blast {
                        entity: candidate.entity,
                        knock_back: candidate.entity != exploding,
                        done_event,
                    },
                );
                if candidate.is_monster {
                    monster_hit_count = monster_hit_count + 1;
                }
                if candidate.is_player {
                    hit_player = true;
                }
            }
            assert(hit_player == player_reached(next, radius)) by {
                if player_reached(next, radius) && !player_reached(prefix, radius) {
                    let k = choose|k: int|
                        0 <= k < next.len() && reached(next[k], radius) && #[trigger] next[k].is_player;
                    if k < i {
                        assert(prefix[k] == next[k]);
                    }
                }
                if player_reached(prefix, radius) {
                    let k = choose|k: int|
                        0 <= k < prefix.len() && reached(prefix[k], radius)
                            && #[trigger] prefix[k].is_player;
                    assert(next[k] == prefix[k]);
                }
            }
            i = i + 1;
        }
        assert(before.take(before.len() as int) =~= before);
        ExplosionPlan { despawn_now, blasts, monster_hit_count, hit_player }
    }

    /// A bomb at `distance` from an explosion of radius `radius` is caught in
    /// it, unless it has gone off already: it is then marked as exploded and
    /// about to explode, and its text turns to "!" in its new colours, which
    /// are returned. Returns nothing when the bomb is left as it was.
    pub fn mark_bomb_in_explosion(bomb: &mut Bomb, distance: F32Bits, radius: F32Bits) -> (look:
        Option<CaughtBombLook>)
        ensures
            look is Some <==> (distance.at_most(radius) && old(bomb).state != BombState::Exploded),
            look is Some ==> *final(bomb) == (Bomb {
                state: BombState::Exploded,
                about_to_explode: true,
                ..*old(bomb)
            }),
            look matches Some(l) ==> l.text@ == seq!['!'] && Some(l.colors) == final(bomb).colors(),
            look is None ==> *final(bomb) == *old(bomb),
    {
        if !distance.le(&radius) {
            return None;
        }
        if bomb.catch_in_explosion() {
            let colors = match bomb.to_colors() {
                Some(c) => c,
                None => BombAndTextColors { bomb: PaletteColor::Red, text: PaletteColor::White },
            };
            let text = String::from_str("!");
            proof {
                reveal_strlit("!");
            }
            Some(CaughtBombLook { text, colors })
        } else {
            None
        }
    }
}

/// What a bomb caught in an explosion shows: its text and the colours of its
/// text, light and body.
#[derive(Debug, Clone, PartialEq, Eq)]
pub struct CaughtBombLook {
    pub text: String,
    pub colors: BombAndTextColors,
}

/// What an explosion brings about for the game.
#[derive(Debug, Clone, Copy, PartialEq, Eq, Structural)]
pub struct ExplosionSideEffects {
    /// Points to add to the player's score.
    pub score_to_append: Option<u32>,
    /// The explosion killed the player.
    pub game_over: bool,
}

impl ExplosionManagerPlugin {
    /// The score and game-over consequences of `exploded`: points for each
    /// monster killed (none when no monster was), and the end of the game when
    /// the player was hit.
    pub fn manage_bomb_explosion_side_effects(exploded: &BombExploded) -> (r: ExplosionSideEffects)
        ensures
            r.score_to_append == (if exploded.monster_hit_count > 0 {
                Some(
                    ((exploded.monster_hit_count as u32) * PLAYER_SCORE_POINTS_ON_MONSTER_KILLED) as u32,
                )
            } else {
                None
            }),
            r.game_over == exploded.hit_player,
    {
        let score_to_append = if exploded.monster_hit_count > 0 {
            Some(PLAYER_SCORE_POINTS_ON_MONSTER_KILLED * (exploded.monster_hit_count as u32))
        } else {
            None
        };
        ExplosionSideEffects { score_to_append, game_over: exploded.hit_player }
    }
}

} // verus!

verus! {

proof fn lemma_nothing_reached(
    exploding: EntityId,
    candidates: Seq<BlastCandidate>,
    radius: F32Bits,
    chain_radius: F32Bits,
)
    requires
        forall|i: int| 0 <= i < candidates.len() ==> !reached(#[trigger] candidates[i], radius),
    ensures
        blasts_of(exploding, candidates, radius, chain_radius) == Seq::<Blast>::empty(),
        monsters_reached(candidates, radius) == 0,
        !player_reached(candidates, radius),
    decreases candidates.len(),
{
    if candidates.len() > 0 {
        let rest = candidates.drop_last();
        assert forall|i: int| 0 <= i < rest.len() implies !reached(#[trigger] rest[i], radius) by {
            assert(rest[i] == candidates[i]);
        }
        lemma_nothing_reached(exploding, rest, radius, chain_radius);
        assert(!reached(candidates[candidates.len() - 1], radius));
    }
}

/// An explosion takes care of each entity once: once an explosion has gone
/// through, another one with the same radius over the same entities reaches
/// none of them, kills no monster and spares the player.
pub proof fn lemma_entities_blasted_once(
    exploding: EntityId,
    before: Seq<BlastCandidate>,
    after: Seq<BlastCandidate>,
    radius: F32Bits,
    chain_radius: F32Bits,
)
    requires
        marked_after(before, after, radius),
    ensures
        blasts_of(exploding, after, radius, chain_radius) == Seq::<Blast>::empty(),
        monsters_reached(after, radius) == 0,
        !player_reached(after, radius),
{
    assert forall|i: int| 0 <= i < after.len() implies !reached(#[trigger] after[i], radius) by {
        assert(after[i] == (BlastCandidate {
            currently_affected_by_bomb: before[i].currently_affected_by_bomb || reached(before[i], radius),
            ..before[i]
        }));
    }
    lemma_nothing_reached(exploding, after, radius, chain_radius);
}

/// An entity is blasted at most once: whatever an explosion reached is marked
/// as taken care of, and no later explosion reaches it again, whatever that
/// explosion's radius and wherever the entity has moved since, as long as the
/// mark stays.
pub proof fn lemma_reached_entities_never_reached_again(
    before: Seq<BlastCandidate>,
    after: Seq<BlastCandidate>,
    radius: F32Bits,
    later: Seq<BlastCandidate>,
    later_radius: F32Bits,
)
    requires
        marked_after(before, after, radius),
        later.len() == after.len(),
        forall|i: int|
            0 <= i < after.len() && (#[trigger] after[i]).currently_affected_by_bomb
                ==> later[i].currently_affected_by_bomb,
    ensures
        forall|i: int|
            0 <= i < before.len() && reached(#[trigger] before[i], radius) ==> !reached(
                later[i],
                later_radius,
            ),
{
    assert forall|i: int|
        0 <= i < before.len() && reached(#[trigger] before[i], radius) implies !reached(
        later[i],
        later_radius,
    ) by {
        assert(after[i].currently_affected_by_bomb);
    }
}

/// How many of `candidates` are monsters.
pub open spec fn monsters_among(candidates: Seq<BlastCandidate>) -> nat
    decreases candidates.len(),
{
    if candidates.len() == 0 {
        0
    } else {
        monsters_among(candidates.drop_last()) + if candidates.last().is_monster {
            1nat
        } else {
            0nat
        }
    }
}

proof fn lemma_blast_comes_from_reached(
    exploding: EntityId,
    candidates: Seq<BlastCandidate>,
    radius: F32Bits,
    chain_radius: F32Bits,
    k: int,
)
    requires
        0 <= k < blasts_of(exploding, candidates, radius, chain_radius).len(),
    ensures
        exists|i: int|
            0 <= i < candidates.len() && reached(candidates[i], radius)
                && blasts_of(exploding, candidates, radius, chain_radius)[k] == blast_for(
                exploding,
                #[trigger] candidates[i],
                chain_radius,
            ),
    decreases candidates.len(),
{
    let rest = candidates.drop_last();
    let earlier = blasts_of(exploding, rest, radius, chain_radius);
    if k < earlier.len() {
        lemma_blast_comes_from_reached(exploding, rest, radius, chain_radius, k);
        let i = choose|i: int|
            0 <= i < rest.len() && reached(rest[i], radius) && earlier[k] == blast_for(
                exploding,
                #[trigger] rest[i],
                chain_radius,
            );
        assert(rest[i] == candidates[i]);
    } else {
        assert(reached(candidates[candidates.len() - 1], radius));
    }
}

proof fn lemma_two_counts_bounded(
    before: Seq<BlastCandidate>,
    later: Seq<BlastCandidate>,
    radius: F32Bits,
    later_radius: F32Bits,
)
    requires
        later.len() == before.len(),
        forall|i: int|
            0 <= i < before.len() ==> (#[trigger] later[i]).is_monster == before[i].is_monster,
        forall|i: int|
            0 <= i < before.len() && reached(#[trigger] before[i], radius) ==> !reached(
                later[i],
                later_radius,
            ),
    ensures
        monsters_reached(before, radius) + monsters_reached(later, later_radius) <= monsters_among(
            before,
        ),
    decreases before.len(),
{
    if before.len() > 0 {
        let b = before.drop_last();
        let l = later.drop_last();
        assert forall|i: int| 0 <= i < b.len() implies (#[trigger] l[i]).is_monster == b[i].is_monster by {
            assert(l[i] == later[i] && b[i] == before[i]);
        }
        assert forall|i: int| 0 <= i < b.len() && reached(#[trigger] b[i], radius) implies !reached(
            l[i],
            later_radius,
        ) by {
            assert(l[i] == later[i] && b[i] == before[i]);
        }
        lemma_two_counts_bounded(b, l, radius, later_radius);
        let n = before.len() - 1;
        assert(later[n].is_monster == before[n].is_monster);
    }
}

/// Two explosions over the same entities, the second after the first marked
/// what it reached (and with the marks kept), blast each entity at most once:
/// no entity is blasted by both, so none gets two knock-back timers, and the
/// monsters the two kill together are at most the monsters there are.
pub proof fn lemma_two_explosions_blast_each_entity_once(
    first_bomb: EntityId,
    second_bomb: EntityId,
    before: Seq<BlastCandidate>,
    after: Seq<BlastCandidate>,
    radius: F32Bits,
    later: Seq<BlastCandidate>,
    later_radius: F32Bits,
    chain_radius: F32Bits,
)
    requires
        marked_after(before, after, radius),
        forall|i: int, j: int|
            0 <= i < before.len() && 0 <= j < before.len() && i != j ==> before[i].entity
                != before[j].entity,
        later.len() == after.len(),
        forall|i: int|
            0 <= i < after.len() ==> {
                &&& (#[trigger] later[i]).entity == after[i].entity
                &&& later[i].is_monster == after[i].is_monster
                &&& after[i].currently_affected_by_bomb ==> later[i].currently_affected_by_bomb
            },
    ensures
        forall|k1: int, k2: int|
            0 <= k1 < blasts_of(first_bomb, before, radius, chain_radius).len() && 0 <= k2
                < blasts_of(second_bomb, later, later_radius, chain_radius).len() ==> (
            #[trigger] blasts_of(first_bomb, before, radius, chain_radius)[k1]).entity != (
            #[trigger] blasts_of(second_bomb, later, later_radius, chain_radius)[k2]).entity,
        monsters_reached(before, radius) + monsters_reached(later, later_radius) <= monsters_among(
            before,
        ),
{
    assert forall|i: int|
        0 <= i < before.len() && reached(#[trigger] before[i], radius) implies !reached(
        later[i],
        later_radius,
    ) by {
        assert(after[i].currently_affected_by_bomb);
    }
    assert forall|i: int| 0 <= i < before.len() implies (#[trigger] later[i]).is_monster
        == before[i].is_monster by {
        assert(after[i].is_monster == before[i].is_monster);
    }
    lemma_two_counts_bounded(before, later, radius, later_radius);
    assert forall|k1: int, k2: int|
        0 <= k1 < blasts_of(first_bomb, before, radius, chain_radius).len() && 0 <= k2
            < blasts_of(second_bomb, later, later_radius, chain_radius).len() implies (
    #[trigger] blasts_of(first_bomb, before, radius, chain_radius)[k1]).entity != (
    #[trigger] blasts_of(second_bomb, later, later_radius, chain_radius)[k2]).entity by {
        lemma_blast_comes_from_reached(first_bomb, before, radius, chain_radius, k1);
        lemma_blast_comes_from_reached(second_bomb, later, later_radius, chain_radius, k2);
        let i1 = choose|i: int|
            0 <= i < before.len() && reached(before[i], radius)
                && blasts_of(first_bomb, before, radius, chain_radius)[k1] == blast_for(
                first_bomb,
                #[trigger] before[i],
                chain_radius,
            );
        let i2 = choose|i: int|
            0 <= i < later.len() && reached(later[i], later_radius)
                && blasts_of(second_bomb, later, later_radius, chain_radius)[k2] == blast_for(
                second_bomb,
                #[trigger] later[i],
                chain_radius,
            );
        assert(after[i1].currently_affected_by_bomb);
        assert(after[i2].entity == before[i2].entity);
    }
}

/// An explosion kills no more monsters than it has entities to consider.
pub proof fn lemma_monsters_killed_at_most_candidates(candidates: Seq<BlastCandidate>, radius: F32Bits)
    ensures
        monsters_reached(candidates, radius) <= candidates.len(),
{
    lemma_monsters_reached_bounded(candidates, radius);
}

/// A bomb caught in an explosion shows red on white, whatever it looked like
/// before.
pub proof fn lemma_caught_bomb_shows_danger(bomb: Bomb)
    ensures
        (Bomb { state: BombState::Exploded, about_to_explode: true, ..bomb }).colors() == Some(
            crate::game::bombs::bomb::BombAndTextColors {
                bomb: crate::palette::PaletteColor::Red,
                text: crate::palette::PaletteColor::White,
            },
        ),
{
}


/// What an entity reached by an explosion becomes once knocked back: a bomb
/// other than the exploding one goes off in turn with the chain radius,
/// whatever timer calculators act on it; the calculators decide only whether
/// an entity that is despawned (anything else, or the exploding bomb itself)
/// takes what acts on it along.
pub proof fn lemma_reached_bombs_chain_explode(
    is_self: bool,
    is_bomb: bool,
    has_timer_calculators: bool,
    chain_radius: F32Bits,
)
    ensures
        is_bomb && !is_self ==> done_event_for(is_self, is_bomb, has_timer_calculators, chain_radius)
            == TimerDoneEventType::ExplodeInRadius(chain_radius),
        !(is_bomb && !is_self) && has_timer_calculators ==> done_event_for(
            is_self,
            is_bomb,
            has_timer_calculators,
            chain_radius,
        ) == TimerDoneEventType::DespawnAffectedEntities(
            DespawnPolicy::DespawnSelfAndAllThatAffectsIt,
        ),
        !(is_bomb && !is_self) && !has_timer_calculators ==> done_event_for(
            is_self,
            is_bomb,
            has_timer_calculators,
            chain_radius,
        ) == TimerDoneEventType::DespawnAffectedEntities(DespawnPolicy::DespawnSelf),
        done_event_for(is_self, is_bomb, true, chain_radius) is ExplodeInRadius
            == done_event_for(is_self, is_bomb, false, chain_radius) is ExplodeInRadius,
{
}

/// Every blast of an explosion is of an entity the explosion reached, and
/// when that entity is a bomb other than the exploding one, the blast sets it
/// off with the chain radius, whether or not timer calculators act on it.
pub proof fn lemma_explosions_chain_to_reached_bombs(
    exploding: EntityId,
    candidates: Seq<BlastCandidate>,
    radius: F32Bits,
    chain_radius: F32Bits,
)
    ensures
        forall|k: int|
            0 <= k < blasts_of(exploding, candidates, radius, chain_radius).len() ==> exists|i: int|
                {
                    &&& 0 <= i < candidates.len()
                    &&& reached(candidates[i], radius)
                    &&& (#[trigger] blasts_of(exploding, candidates, radius, chain_radius)[k]).entity
                        == candidates[i].entity
                    &&& candidates[i].is_bomb && candidates[i].entity != exploding ==> blasts_of(
                        exploding,
                        candidates,
                        radius,
                        chain_radius,
                    )[k].done_event == TimerDoneEventType::ExplodeInRadius(chain_radius)
                },
{
    assert forall|k: int|
        0 <= k < blasts_of(exploding, candidates, radius, chain_radius).len() implies exists|i: int|
        {
            &&& 0 <= i < candidates.len()
            &&& reached(candidates[i], radius)
            &&& (#[trigger] blasts_of(exploding, candidates, radius, chain_radius)[k]).entity
                == candidates[i].entity
            &&& candidates[i].is_bomb && candidates[i].entity != exploding ==> blasts_of(
                exploding,
                candidates,
                radius,
                chain_radius,
            )[k].done_event == TimerDoneEventType::ExplodeInRadius(chain_radius)
        } by {
        lemma_blast_comes_from_reached(exploding, candidates, radius, chain_radius, k);
        let i = choose|i: int|
            0 <= i < candidates.len() && reached(candidates[i], radius)
                && blasts_of(exploding, candidates, radius, chain_radius)[k] == blast_for(
                exploding,
                #[trigger] candidates[i],
                chain_radius,
            );
        lemma_reached_bombs_chain_explode(
            candidates[i].entity == exploding,
            candidates[i].is_bomb,
            candidates[i].has_timer_calculators,
            chain_radius,
        );
    }
}

/// A thrown bomb sees a collider in every monster and every grown bomb but
/// itself, and in nothing else: a chasing monster with its larger collider,
/// any other monster (wandering, fleeing or fading in) with the plain one.
pub proof fn lemma_thrown_bombs_see_every_monster(bomb_entity: EntityId, candidate: ContactCandidate)
    ensures
        collider_of(bomb_entity, candidate) is None <==> (candidate.entity == bomb_entity || (
        candidate.monster_state is None && !candidate.bomb_tagged)),
        candidate.entity != bomb_entity && candidate.monster_state is Some ==> collider_of(
            bomb_entity,
            candidate,
        ) == Some(
            if candidate.monster_state.unwrap() is Chasing {
                ContactCollider::ChasingMonster
            } else {
                ContactCollider::Monster
            },
        ),
        candidate.entity != bomb_entity && candidate.monster_state is None && candidate.bomb_tagged
            ==> collider_of(bomb_entity, candidate) == Some(ContactCollider::Bomb),
{
}

/// A thrown bomb touches any monster but itself that is not chasing, whatever
/// the monster is up to, once it comes within the plain monster reach; a
/// chasing monster, within the chasing reach.
pub proof fn lemma_thrown_bombs_touch_near_monsters(
    bomb_entity: EntityId,
    candidate: ContactCandidate,
    reach: ContactReach,
)
    requires
        candidate.entity != bomb_entity,
        candidate.monster_state is Some,
    ensures
        !(candidate.monster_state.unwrap() is Chasing) ==> (touches(bomb_entity, candidate, reach)
            <==> candidate.distance.at_most(reach.monster)),
        candidate.monster_state.unwrap() is Chasing ==> (touches(bomb_entity, candidate, reach)
            <==> candidate.distance.at_most(reach.chasing_monster)),
{
    lemma_thrown_bombs_see_every_monster(bomb_entity, candidate);
}


proof fn lemma_despawned_now_is_the_exploding_bomb(exploding: EntityId, candidates: Seq<BlastCandidate>)
    ensures
        forall|k: int|
            0 <= k < despawned_now(exploding, candidates).len() ==> #[trigger] despawned_now(
                exploding,
                candidates,
            )[k] == exploding,
        despawned_now(exploding, candidates).len() > 0 <==> exists|i: int|
            0 <= i < candidates.len() && (#[trigger] candidates[i]).entity == exploding
                && candidates[i].currently_affected_by_bomb,
    decreases candidates.len(),
{
    if candidates.len() > 0 {
        let rest = candidates.drop_last();
        lemma_despawned_now_is_the_exploding_bomb(exploding, rest);
        if exists|i: int|
            0 <= i < rest.len() && (#[trigger] rest[i]).entity == exploding
                && rest[i].currently_affected_by_bomb {
            let i = choose|i: int|
                0 <= i < rest.len() && (#[trigger] rest[i]).entity == exploding
                    && rest[i].currently_affected_by_bomb;
            assert(candidates[i] == rest[i]);
        }
        if exists|i: int|
            0 <= i < candidates.len() && (#[trigger] candidates[i]).entity == exploding
                && candidates[i].currently_affected_by_bomb {
            let i = choose|i: int|
                0 <= i < candidates.len() && (#[trigger] candidates[i]).entity == exploding
                    && candidates[i].currently_affected_by_bomb;
            if i < candidates.len() - 1 {
                assert(rest[i] == candidates[i]);
            }
        }
    }
}

/// What an explosion reaches and does. It reaches each entity not yet taken
/// care of whose distance is at most the radius, one lying exactly on the
/// radius included, and nothing already taken care of. It knocks back every
/// entity it reaches but the exploding bomb. It kills one more monster for each
/// further monster it reaches, and hits the player when it reaches the player.
/// The exploding bomb is despawned at once exactly when an earlier explosion
/// already took care of it, and nothing else is.
pub proof fn lemma_what_an_explosion_does(
    exploding: EntityId,
    candidates: Seq<BlastCandidate>,
    candidate: BlastCandidate,
    radius: F32Bits,
    chain_radius: F32Bits,
)
    ensures
        reached(candidate, radius) <==> (!candidate.currently_affected_by_bomb
            && candidate.distance.at_most(radius)),
        !candidate.currently_affected_by_bomb && !radius.nan() && candidate.distance == radius
            ==> reached(candidate, radius),
        blast_for(exploding, candidate, chain_radius).entity == candidate.entity,
        blast_for(exploding, candidate, chain_radius).knock_back <==> candidate.entity != exploding,
        monsters_reached(candidates.push(candidate), radius) == monsters_reached(candidates, radius)
            + if reached(candidate, radius) && candidate.is_monster {
            1nat
        } else {
            0nat
        },
        player_reached(candidates, radius) <==> exists|i: int|
            0 <= i < candidates.len() && reached(candidates[i], radius)
                && #[trigger] candidates[i].is_player,
        blasts_of(exploding, candidates.push(candidate), radius, chain_radius) == if reached(
            candidate,
            radius,
        ) {
            blasts_of(exploding, candidates, radius, chain_radius).push(
                blast_for(exploding, candidate, chain_radius),
            )
        } else {
            blasts_of(exploding, candidates, radius, chain_radius)
        },
        forall|k: int|
            0 <= k < despawned_now(exploding, candidates).len() ==> #[trigger] despawned_now(
                exploding,
                candidates,
            )[k] == exploding,
        despawned_now(exploding, candidates).len() > 0 <==> exists|i: int|
            0 <= i < candidates.len() && (#[trigger] candidates[i]).entity == exploding
                && candidates[i].currently_affected_by_bomb,
{
    assert(candidates.push(candidate).drop_last() =~= candidates);
    lemma_despawned_now_is_the_exploding_bomb(exploding, candidates);
}

} // verus!
