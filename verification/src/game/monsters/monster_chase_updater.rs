use vstd::prelude::*;
use crate::entity::EntityId;
use crate::float_bits::F32Bits;
use crate::game::monsters::monster::Monster;
use crate::game::monsters::monster_path::stray_path_ender::PathMover;
use crate::game::monsters::monster_path::stray_path_updater::on_path;
use crate::game::monsters::monster_state::MonsterState;
use crate::timers::{TimerAffectedEntity, TimerDuration, copy_affected_entities};

verus! {

/// A movement timer restarted towards a chased target's new place: it acts
/// on `affected_entities` from now on, runs `duration` from its start again.
#[derive(Debug, Clone, PartialEq, Eq)]
pub struct ChaseTimerReset {
    /// Where the timer stands among the monster's movement timers.
    pub index: usize,
    pub timer: EntityId,
    pub affected_entities: Vec<TimerAffectedEntity>,
    pub duration: TimerDuration,
}

/// The movement timer `mover` is restarted when a chase moves on: it is on the
/// path sequence `path_sequence` and acts on some entity.
pub open spec fn resets_on_chase(path_sequence: Option<EntityId>, mover: PathMover) -> bool {
    &&& path_sequence matches Some(s) && on_path(mover.mover, s)
    &&& mover.affected_entities@.len() > 0
}

/// `reset` restarts `mover` (at `index`): its first affected entity becomes
/// `new_affected_entity`, the others stay, and it runs `new_duration` seconds.
pub open spec fn restarts(
    reset: ChaseTimerReset,
    index: int,
    mover: PathMover,
    new_affected_entity: TimerAffectedEntity,
    new_duration: F32Bits,
) -> bool {
    &&& reset.index == index
    &&& reset.timer == mover.mover.timer
    &&& reset.affected_entities@ == mover.affected_entities@.update(0, new_affected_entity)
    &&& reset.duration == TimerDuration::Seconds(new_duration)
}

/// Keeps chasing monsters heading for where their target is now.
pub struct MonsterChaseUpdaterPlugin;

impl MonsterChaseUpdaterPlugin {
    /// Restarts, in order, each of `direct_line_movers` that is on the path
    /// sequence `path_sequence` and acts on some entity (none when there is no
    /// path): its first affected entity becomes `new_affected_entity` and it
    /// runs `new_timer_duration` seconds from its start. No other timer changes.
    pub fn reset_chase_timer_with_new_calculator(
        new_affected_entity: TimerAffectedEntity,
        new_timer_duration: F32Bits,
        path_sequence: Option<EntityId>,
        direct_line_movers: &Vec<PathMover>,
    ) -> (resets: Vec<ChaseTimerReset>)
        ensures
            forall|k: int|
                0 <= k < resets@.len() ==> {
                    &&& resets@[k].index < direct_line_movers.len()
                    &&& resets_on_chase(path_sequence, direct_line_movers@[resets@[k].index as int])
                    &&& restarts(
                        resets@[k],
                        resets@[k].index as int,
                        direct_line_movers@[resets@[k].index as int],
                        new_affected_entity,
                        new_timer_duration,
                    )
                },
            forall|k1: int, k2: int|
                0 <= k1 < k2 < resets@.len() ==> resets@[k1].index < resets@[k2].index,
            forall|i: int|
                0 <= i < direct_line_movers.len() && resets_on_chase(
                    path_sequence,
                    #[trigger] direct_line_movers@[i],
                ) ==> exists|k: int| 0 <= k < resets@.len() && resets@[k].index == i,
    {
        let mut resets: Vec<ChaseTimerReset> = Vec::new();
        let sequence = match path_sequence {
            None => {
                return resets;
            },
            Some(sequence) => sequence,
        };
        let mut i: usize = 0;
        while i < direct_line_movers.len()
            invariant
                i <= direct_line_movers.len(),
                path_sequence == Some(sequence),
                forall|k: int|
                    0 <= k < resets@.len() ==> {
                        &&& resets@[k].index < i
                        &&& resets_on_chase(path_sequence, direct_line_movers@[resets@[k].index as int])
                        &&& restarts(
                            resets@[k],
                            resets@[k].index as int,
                            direct_line_movers@[resets@[k].index as int],
                            new_affected_entity,
                            new_timer_duration,
                        )
                    },
                forall|k1: int, k2: int|
                    0 <= k1 < k2 < resets@.len() ==> resets@[k1].index < resets@[k2].index,
                forall|j: int|
                    0 <= j < i && resets_on_chase(path_sequence, #[trigger] direct_line_movers@[j])
                        ==> exists|k: int| 0 <= k < resets@.len() && resets@[k].index == j,
            decreases direct_line_movers.len() - i,
        {
            let mover = &direct_line_movers[i];
            let on_the_path = match mover.mover.parent_sequence {
                Some(parent) => parent.parent_sequence == sequence,
                None => false,
            };
            if on_the_path && mover.affected_entities.len() > 0 {
                let mut affected_entities = copy_affected_entities(&mover.affected_entities);
                affected_entities.set(0, new_affected_entity);
                let ghost before = resets@;
                resets.push(
                    ChaseTimerReset {
                        index: i,
                        timer: mover.mover.timer,
                        affected_entities,
                        duration: TimerDuration::Seconds(new_timer_duration),
                    },
                );
                assert forall|j: int|
                    0 <= j < i + 1 && resets_on_chase(path_sequence, #[trigger] direct_line_movers@[j])
                        implies exists|k: int| 0 <= k < resets@.len() && resets@[k].index == j by {
                    if j < i {
                        let w = choose|w: int| 0 <= w < before.len() && before[w].index == j;
                        assert(resets@[w].index == j);
                    } else {
                        assert(resets@[before.len() as int].index == i);
                    }
                }
            }
            i = i + 1;
        }
        resets
    }

    /// What a chase does to a monster's movement timers once its target moved
    /// (`target_moved`): for a chasing monster, the restarts of
    /// `reset_chase_timer_with_new_calculator` towards the target, the monster
    /// itself moved by `new_chase_path_calculator` for `new_timer_duration`
    /// seconds, on its path sequence; nothing for a monster that does not
    /// chase, has no movement timers, or whose target stayed put.
    pub fn update_chasing_monster(
        monster: &Monster,
        monster_entity: EntityId,
        target_moved: bool,
        direct_line_movers: &Option<Vec<PathMover>>,
        new_chase_path_calculator: EntityId,
        new_timer_duration: F32Bits,
    ) -> (resets: Vec<ChaseTimerReset>)
        ensures
            !(monster.state is Chasing && target_moved && direct_line_movers is Some) ==> resets@.len()
                == 0,
            match direct_line_movers {
                None => true,
                Some(movers) => (monster.state is Chasing && target_moved) ==> {
                    let new_affected = TimerAffectedEntity {
                        affected_entity: monster_entity,
                        value_calculator_entity: Some(new_chase_path_calculator),
                    };
                    &&& forall|k: int|
                        0 <= k < resets@.len() ==> {
                            &&& resets@[k].index < movers.len()
                            &&& resets_on_chase(
                                monster.path_timer_sequence,
                                movers@[resets@[k].index as int],
                            )
                            &&& restarts(
                                resets@[k],
                                resets@[k].index as int,
                                movers@[resets@[k].index as int],
                                new_affected,
                                new_timer_duration,
                            )
                        }
                    &&& forall|k1: int, k2: int|
                        0 <= k1 < k2 < resets@.len() ==> resets@[k1].index < resets@[k2].index
                    &&& forall|i: int|
                        0 <= i < movers.len() && resets_on_chase(
                            monster.path_timer_sequence,
                            #[trigger] movers@[i],
                        ) ==> exists|k: int| 0 <= k < resets@.len() && resets@[k].index == i
                },
            },
    {
        let chasing = match monster.state {
            MonsterState::Chasing(_) => true,
            _ => false,
        };
        match direct_line_movers {
            Some(movers) => {
                if chasing && target_moved {
                    Self::reset_chase_timer_with_new_calculator(
                        TimerAffectedEntity {
                            affected_entity: monster_entity,
                            value_calculator_entity: Some(new_chase_path_calculator),
                        },
                        new_timer_duration,
                        monster.path_timer_sequence,
                        movers,
                    )
                } else {
                    Vec::new()
                }
            },
            None => Vec::new(),
        }
    }
}


/// A chase restarts the monster's movement timers that are on its path
/// sequence and act on some entity, and no others; a restarted timer acts on
/// the new entity and calculator first, keeps the rest of what it acted on,
/// and runs the new duration.
pub proof fn lemma_chase_restarts(
    path_sequence: Option<EntityId>,
    mover: PathMover,
    reset: ChaseTimerReset,
    index: int,
    new_affected_entity: TimerAffectedEntity,
    new_duration: F32Bits,
)
    ensures
        resets_on_chase(path_sequence, mover) <==> (path_sequence is Some
            && mover.mover.parent_sequence is Some && mover.mover.parent_sequence->0.parent_sequence
            == path_sequence->0 && mover.affected_entities@.len() > 0),
        restarts(reset, index, mover, new_affected_entity, new_duration) && mover.affected_entities@.len()
            > 0 ==> {
            &&& reset.timer == mover.mover.timer
            &&& reset.affected_entities@.len() == mover.affected_entities@.len()
            &&& reset.affected_entities@[0] == new_affected_entity
            &&& forall|k: int|
                1 <= k < mover.affected_entities@.len() ==> reset.affected_entities@[k]
                    == mover.affected_entities@[k]
            &&& reset.duration == TimerDuration::Seconds(new_duration)
        },
{
}

} // verus!
