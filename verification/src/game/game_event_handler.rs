use vstd::prelude::*;
use crate::entity::EntityId;
use crate::game::event_channels::GameEvent;

verus! {

/// Some event of the frame asks to restart the game.
pub open spec fn restart_requested(events: Seq<GameEvent>) -> bool {
    exists|i: int| 0 <= i < events.len() && events[i] == GameEvent::RestartGame
}

/// An entity of the world, and whether it survives restarts: the entities
/// there before the game starts are tagged so.
#[derive(Debug, Clone, Copy, PartialEq, Eq, Structural)]
pub struct WorldEntity {
    pub entity: EntityId,
    pub do_not_destroy_on_restart: bool,
}

/// The entities a restart despawns, in their order: those not tagged to
/// survive restarts.
pub open spec fn doomed_on_restart(entities: Seq<WorldEntity>) -> Seq<EntityId>
    decreases entities.len(),
{
    if entities.len() == 0 {
        Seq::empty()
    } else {
        let earlier = doomed_on_restart(entities.drop_last());
        if entities.last().do_not_destroy_on_restart {
            earlier
        } else {
            earlier.push(entities.last().entity)
        }
    }
}

/// Clears the world when the game restarts.
pub struct GameEventHandlerPlugin;

impl GameEventHandlerPlugin {
    /// Whether the events of this frame ask for a restart: then every entity not
    /// marked to survive restarts is despawned, and the spawners start over.
    pub fn restart_requested(events: &Vec<GameEvent>) -> (r: bool)
        ensures
            r == restart_requested(events@),
    {
        let mut i: usize = 0;
        while i < events.len()
            invariant
                i <= events.len(),
                forall|j: int| 0 <= j < i ==> events@[j] != GameEvent::RestartGame,
            decreases events.len() - i,
        {
            if events[i] == GameEvent::RestartGame {
                return true;
            }
            i = i + 1;
        }
        false
    }

    /// Tags each of `entities`, there before the game starts, to survive
    /// restarts.
    pub fn tag_all_prestartup_entities_with_destroynt(entities: &Vec<EntityId>) -> (r: Vec<WorldEntity>)
        ensures
            r@.len() == entities.len(),
            forall|i: int|
                0 <= i < entities.len() ==> #[trigger] r@[i] == (WorldEntity {
                    entity: entities@[i],
                    do_not_destroy_on_restart: true,
                }),
    {
        let mut r: Vec<WorldEntity> = Vec::new();
        let mut i: usize = 0;
        while i < entities.len()
            invariant
                i <= entities.len(),
                r@.len() == i,
                forall|j: int|
                    0 <= j < i ==> #[trigger] r@[j] == (WorldEntity {
                        entity: entities@[j],
                        do_not_destroy_on_restart: true,
                    }),
            decreases entities.len() - i,
        {
            r.push(WorldEntity { entity: entities[i], do_not_destroy_on_restart: true });
            i = i + 1;
        }
        r
    }

    /// The entities to despawn for the events of this frame: when one asks for
    /// a restart, every entity of `entities` not tagged to survive restarts, in
    /// order; otherwise none.
    pub fn despawn_all_upon_restart(events: &Vec<GameEvent>, entities: &Vec<WorldEntity>) -> (doomed:
        Vec<EntityId>)
        ensures
            doomed@ == (if restart_requested(events@) {
                doomed_on_restart(entities@)
            } else {
                Seq::<EntityId>::empty()
            }),
    {
        let mut doomed: Vec<EntityId> = Vec::new();
        if !Self::restart_requested(events) {
            return doomed;
        }
        let mut i: usize = 0;
        while i < entities.len()
            invariant
                i <= entities.len(),
                doomed@ == doomed_on_restart(entities@.subrange(0, i as int)),
            decreases entities.len() - i,
        {
            assert(entities@.subrange(0, i + 1).drop_last() =~= entities@.subrange(0, i as int));
            if !entities[i].do_not_destroy_on_restart {
                doomed.push(entities[i].entity);
            }
            i = i + 1;
        }
        assert(entities@.subrange(0, entities.len() as int) =~= entities@);
        doomed
    }
}

/// A restart despawns exactly the entities not tagged to survive it: each
/// despawned entity is one of them, and an entity tagged before the game
/// started (entities being told apart by their handles) is never despawned.
pub proof fn lemma_restart_spares_tagged_entities(entities: Seq<WorldEntity>, i: int)
    requires
        0 <= i < entities.len(),
        entities[i].do_not_destroy_on_restart,
        forall|a: int, b: int|
            0 <= a < entities.len() && 0 <= b < entities.len() && a != b ==> entities[a].entity
                != entities[b].entity,
    ensures
        !doomed_on_restart(entities).contains(entities[i].entity),
        forall|k: int|
            0 <= k < doomed_on_restart(entities).len() ==> exists|j: int|
                0 <= j < entities.len() && !entities[j].do_not_destroy_on_restart
                    && #[trigger] doomed_on_restart(entities)[k] == entities[j].entity,
{
    lemma_doomed_are_untagged(entities);
    if doomed_on_restart(entities).contains(entities[i].entity) {
        let k = choose|k: int|
            0 <= k < doomed_on_restart(entities).len() && doomed_on_restart(entities)[k]
                == entities[i].entity;
        let j = choose|j: int|
            0 <= j < entities.len() && !entities[j].do_not_destroy_on_restart
                && #[trigger] doomed_on_restart(entities)[k] == entities[j].entity;
        assert(j != i);
    }
}

proof fn lemma_doomed_are_untagged(entities: Seq<WorldEntity>)
    ensures
        forall|k: int|
            0 <= k < doomed_on_restart(entities).len() ==> exists|j: int|
                0 <= j < entities.len() && !entities[j].do_not_destroy_on_restart
                    && #[trigger] doomed_on_restart(entities)[k] == entities[j].entity,
    decreases entities.len(),
{
    if entities.len() > 0 {
        let rest = entities.drop_last();
        lemma_doomed_are_untagged(rest);
        let earlier = doomed_on_restart(rest);
        assert forall|k: int| 0 <= k < doomed_on_restart(entities).len() implies exists|j: int|
            0 <= j < entities.len() && !entities[j].do_not_destroy_on_restart
                && #[trigger] doomed_on_restart(entities)[k] == entities[j].entity by {
            if k < earlier.len() {
                let j = choose|j: int|
                    0 <= j < rest.len() && !rest[j].do_not_destroy_on_restart
                        && #[trigger] earlier[k] == rest[j].entity;
                assert(rest[j] == entities[j]);
                assert(doomed_on_restart(entities)[k] == earlier[k]);
            } else {
                let j = entities.len() - 1;
                assert(doomed_on_restart(entities)[k] == entities[j].entity);
            }
        }
    }
}

} // verus!
