use vstd::prelude::*;
use crate::entity::EntityId;
use crate::float_bits::{F32Bits, Vec2Bits};
use crate::game::monsters::monster::Monster;
use crate::game::monsters::monster_error::MonsterError;
use crate::game::monsters::monster_events::MonsterStateChanged;
use crate::game::monsters::monster_path::stray_path_updater::{
    MovementTimer, StrayPathUpdate, first_on_path, on_path, path_timer_search, stray_path_outcome,
};
use crate::game::monsters::monster_state::MonsterState;
use crate::timers::{TimerAffectedEntity, TimerDoneEvent, TimerDoneEventType, copy_affected_entities};

verus! {

/// A monster back to wandering after a chase or a flight.
pub open spec fn back_to_idle(event: MonsterStateChanged) -> bool {
    event.previous_state != MonsterState::Spawning && event.next_state == MonsterState::Idle
}

/// A straight-line movement timer of a monster, with what it announces when
/// done and the entities it acts on.
#[derive(Debug, Clone, PartialEq, Eq)]
pub struct PathMover {
    pub mover: MovementTimer,
    pub send_once_done: TimerDoneEventType,
    pub affected_entities: Vec<TimerAffectedEntity>,
}

/// The movement timers among `path_movers`, if there are any.
pub open spec fn path_movers_view(path_movers: &Option<Vec<PathMover>>) -> Option<Seq<MovementTimer>> {
    match path_movers {
        Some(v) => Some(v@.map_values(|p: PathMover| p.mover)),
        None => None,
    }
}

/// The end of a stray path: its timer and the timer's calculator are despawned
/// and the timer leaves the monster's movement timers, and the path sequence
/// hears `done_event` as if the timer were done.
#[derive(Debug, Clone, PartialEq, Eq)]
pub struct StrayPathEnd {
    /// Where the timer stood among the monster's movement timers.
    pub index: usize,
    pub timer: EntityId,
    pub value_calculator: EntityId,
    pub done_event: TimerDoneEvent,
}

/// Ends a monster's stray path when it goes back to wandering: its stray
/// movement timer and calculator are despawned and the path sequence goes on
/// as if the timer were done.
pub struct MonsterStrayPathEnderPlugin;

impl MonsterStrayPathEnderPlugin {
    /// Whether `event` ends a stray path (fading in does not count).
    pub fn ends_stray_path(event: &MonsterStateChanged) -> (r: bool)
        ensures
            r == back_to_idle(*event),
    {
        if let MonsterState::Spawning = event.previous_state {
            return false;
        }
        event.next_state == MonsterState::Idle
    }

    /// Ends the stray path of a monster whose path runs the sequence
    /// `path_sequence`: its stray timer is the first of `direct_line_movers` on
    /// that sequence (see `path_timer_search`, whose errors come back when
    /// there is none); it goes with its calculator, and its own done event is
    /// sent in its name.
    pub fn despawn_stray_path_timer_and_get_done_event(
        path_sequence: Option<EntityId>,
        direct_line_movers: &Option<Vec<PathMover>>,
    ) -> (r: Result<StrayPathEnd, MonsterError>)
        ensures
            match r {
                Ok(end) => {
                    &&& path_timer_search(path_sequence, path_movers_view(direct_line_movers))
                        == Ok::<int, MonsterError>(end.index as int)
                    &&& direct_line_movers matches Some(v) && {
                        let found = v@[end.index as int];
                        &&& end.timer == found.mover.timer
                        &&& end.value_calculator == found.mover.value_calculator
                        &&& end.done_event.event_type == found.send_once_done
                        &&& end.done_event.affected_entities@ == found.affected_entities@
                        &&& end.done_event.timer_entity == found.mover.timer
                        &&& end.done_event.timer_parent_sequence == found.mover.parent_sequence
                    }
                },
                Err(e) => path_timer_search(path_sequence, path_movers_view(direct_line_movers))
                    == Err::<int, MonsterError>(e),
            },
    {
        match direct_line_movers {
            None => Err(MonsterError::NoMovementAffectingTimerFound),
            Some(movers) => match path_sequence {
                None => Err(MonsterError::MonsterHasNoPathTimerSequenceAssigned),
                Some(sequence) => {
                    let ghost view = movers@.map_values(|p: PathMover| p.mover);
                    let mut i: usize = 0;
                    while i < movers.len()
                        invariant
                            i <= movers.len(),
                            *direct_line_movers == Some(*movers),
                            path_sequence == Some(sequence),
                            view == movers@.map_values(|p: PathMover| p.mover),
                            forall|j: int| 0 <= j < i ==> !on_path(view[j], sequence),
                        decreases movers.len() - i,
                    {
                        let found = &movers[i];
                        assert(view[i as int] == found.mover);
                        if let Some(parent) = found.mover.parent_sequence {
                            if parent.parent_sequence == sequence {
                                proof {
                                    assert(first_on_path(view, sequence, i as int));
                                    let c = choose|k: int| first_on_path(view, sequence, k);
                                    if c < i {
                                        assert(!on_path(view[c], sequence));
                                    } else if c > i {
                                        assert(!on_path(view[i as int], sequence));
                                    }
                                }
                                let done_event = TimerDoneEvent {
                                    event_type: found.send_once_done,
                                    affected_entities: copy_affected_entities(&found.affected_entities),
                                    timer_entity: found.mover.timer,
                                    timer_parent_sequence: found.mover.parent_sequence,
                                };
                                return Ok(
                                    StrayPathEnd {
                                        index: i,
                                        timer: found.mover.timer,
                                        value_calculator: found.mover.value_calculator,
                                        done_event,
                                    },
                                );
                            }
                        }
                        i = i + 1;
                    }
                    assert(view.len() == movers.len());
                    if movers.len() > 0 {
                        Err(MonsterError::NoMovementTimerHadTheListedPathParentSequence)
                    } else {
                        Err(MonsterError::NoMovementAffectingTimerFound)
                    }
                },
            },
        }
    }
}

/// Ending a stray path finds the one that was laid: when a stray path took the
/// place of the monster's path timer (the only one of its movement timers on
/// its path), and the path timer was then taken out of those timers and the
/// stray mover (timer `mover_timer`) added, ending the stray path picks that
/// mover, which announces that the animation follows the path sequence again,
/// from the removed timer's place in it.
pub proof fn lemma_ending_finds_the_laid_stray_path(
    monster: Monster,
    path_sequence: EntityId,
    monster_entity: EntityId,
    previous_state: MonsterState,
    movers: Seq<MovementTimer>,
    update: StrayPathUpdate,
    new_path_calculator: EntityId,
    timer_duration: F32Bits,
    new_delta: Vec2Bits,
    mover_timer: EntityId,
    after: Seq<PathMover>,
)
    requires
        monster.path_timer_sequence == Some(path_sequence),
        stray_path_outcome(
            Ok(update),
            monster,
            monster_entity,
            previous_state,
            Some(movers),
            new_path_calculator,
            timer_duration,
            new_delta,
        ),
        forall|j: int|
            0 <= j < movers.len() && j != update.removal.index ==> !on_path(
                #[trigger] movers[j],
                path_sequence,
            ),
        after.map_values(|p: PathMover| p.mover) == movers.remove(update.removal.index as int).push(
            MovementTimer {
                timer: mover_timer,
                value_calculator: new_path_calculator,
                parent_sequence: update.timer_fire_requests@[0].parent_sequence,
            },
        ),
        after.last().send_once_done == update.timer_fire_requests@[0].timer.send_once_done,
    ensures
        path_timer_search(Some(path_sequence), Some(after.map_values(|p: PathMover| p.mover)))
            == Ok::<int, MonsterError>(after.len() - 1),
        after.last().mover.timer == mover_timer,
        after.last().send_once_done == TimerDoneEventType::SetAnimationCycleByPathParentSequence,
        after.last().mover.parent_sequence == Some(update.removal.parent_sequence),
{
    let view = after.map_values(|p: PathMover| p.mover);
    let kept = movers.remove(update.removal.index as int);
    let last = after.len() - 1;
    assert(view.len() == after.len());
    assert(view[last] == after[last].mover);
    assert(on_path(view[last], path_sequence));
    assert forall|j: int| 0 <= j < last implies !on_path(#[trigger] view[j], path_sequence) by {
        assert(view[j] == kept[j]);
        if j < update.removal.index {
            assert(kept[j] == movers[j]);
        } else {
            assert(kept[j] == movers[j + 1]);
        }
    }
    assert(first_on_path(view, path_sequence, last));
    let c = choose|i: int| first_on_path(view, path_sequence, i);
    if c < last {
        assert(!on_path(view[c], path_sequence));
    } else if c > last {
        assert(!on_path(view[last], path_sequence));
    }
}


/// A monster that calms down ends its stray path, whether it was chasing or
/// fleeing: a change back to wandering from any state but fading in ends it,
/// and no other change does.
pub proof fn lemma_calming_down_ends_stray_paths(event: MonsterStateChanged, target: EntityId)
    ensures
        back_to_idle(
            MonsterStateChanged {
                previous_state: MonsterState::Chasing(target),
                next_state: MonsterState::Idle,
                ..event
            },
        ),
        back_to_idle(
            MonsterStateChanged {
                previous_state: MonsterState::Fleeing(target),
                next_state: MonsterState::Idle,
                ..event
            },
        ),
        back_to_idle(
            MonsterStateChanged {
                previous_state: MonsterState::Idle,
                next_state: MonsterState::Idle,
                ..event
            },
        ),
        !back_to_idle(
            MonsterStateChanged {
                previous_state: MonsterState::Spawning,
                next_state: MonsterState::Idle,
                ..event
            },
        ),
        !(event.next_state is Idle) ==> !back_to_idle(event),
        !(event.previous_state is Spawning) && event.next_state is Idle ==> back_to_idle(event),
{
}

} // verus!
