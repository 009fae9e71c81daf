use vstd::prelude::*;
use crate::entity::EntityId;
use crate::float_bits::{F32Bits, Vec2Bits};
use crate::game::monsters::monster::Monster;
use crate::game::monsters::monster_error::MonsterError;
use crate::game::monsters::monster_events::{MonsterStateChanged, MonsterStrayPathUpdated};
use crate::game::monsters::monster_state::MonsterState;
use crate::timers::{
    TimerAffectedEntity, TimerDoneEventType, TimerDuration, TimerFireRequest, TimerParentSequence,
};

verus! {

/// How a monster moves with respect to its target.
#[derive(Debug, Clone, Copy, PartialEq, Eq, Structural)]
pub enum Approach {
    /// Straight at the target, at chasing speed.
    Chase,
    /// Away from the target to a safe distance, at fleeing speed.
    Flee,
}

/// How a monster's stray path is laid.
#[derive(Debug, Clone, Copy, PartialEq, Eq, Structural)]
pub struct StrayPathPlan {
    pub target: EntityId,
    pub approach: Approach,
    /// The calculator of the path being replaced goes too: it belongs to an
    /// earlier stray path rather than to the monster's main path.
    pub destroy_previous_calculator: bool,
}

/// A timer that moves a monster in a straight line, with the sequence it
/// belongs to if it belongs to one.
#[derive(Debug, Clone, Copy, PartialEq, Eq, Structural)]
pub struct MovementTimer {
    pub timer: EntityId,
    pub value_calculator: EntityId,
    pub parent_sequence: Option<TimerParentSequence>,
}

/// The movement timer of a monster's path, found for replacement.
#[derive(Debug, Clone, Copy, PartialEq, Eq, Structural)]
pub struct PathTimerRemoval {
    /// Where the timer stands among the monster's movement timers.
    pub index: usize,
    pub timer: EntityId,
    pub value_calculator: EntityId,
    /// The place the replacing timer takes in the path sequence.
    pub parent_sequence: TimerParentSequence,
    /// Despawn the calculator along with the timer.
    pub despawn_calculator: bool,
}

/// The movement timer `timer` belongs to the sequence `path_sequence`.
pub open spec fn on_path(timer: MovementTimer, path_sequence: EntityId) -> bool {
    timer.parent_sequence matches Some(parent) && parent.parent_sequence == path_sequence
}

/// `i` is the first of `movers` on the path `sequence`.
pub open spec fn first_on_path(movers: Seq<MovementTimer>, sequence: EntityId, i: int) -> bool {
    &&& 0 <= i < movers.len()
    &&& on_path(movers[i], sequence)
    &&& forall|j: int| 0 <= j < i ==> !on_path(#[trigger] movers[j], sequence)
}

/// The path timer of a monster whose path runs the sequence `path_sequence`,
/// among its straight-line movement timers (`None` when it has no such list):
/// the first of them on the path. Errors: no movement timers, no path sequence,
/// or none of the timers on the path.
pub open spec fn path_timer_search(
    path_sequence: Option<EntityId>,
    movers: Option<Seq<MovementTimer>>,
) -> Result<int, MonsterError> {
    match movers {
        None => Err(MonsterError::NoMovementAffectingTimerFound),
        Some(movers) => match path_sequence {
            None => Err(MonsterError::MonsterHasNoPathTimerSequenceAssigned),
            Some(sequence) => if exists|i: int| 0 <= i < movers.len() && on_path(movers[i], sequence) {
                Ok(choose|i: int| first_on_path(movers, sequence, i))
            } else if movers.len() > 0 {
                Err(MonsterError::NoMovementTimerHadTheListedPathParentSequence)
            } else {
                Err(MonsterError::NoMovementAffectingTimerFound)
            },
        },
    }
}

/// The monster's straight-line movement timers as a sequence, if it has any.
pub open spec fn movers_view(direct_line_movers: &Option<Vec<MovementTimer>>) -> Option<
    Seq<MovementTimer>,
> {
    match direct_line_movers {
        Some(v) => Some(v@),
        None => None,
    }
}

/// `removal` takes out the path timer that `path_timer_search` finds among
/// `movers`, with its calculator when `destroy_calculator` is set.
pub open spec fn removes_path_timer(
    removal: PathTimerRemoval,
    path_sequence: Option<EntityId>,
    movers: Option<Seq<MovementTimer>>,
    destroy_calculator: bool,
) -> bool {
    &&& path_timer_search(path_sequence, movers) == Ok::<int, MonsterError>(removal.index as int)
    &&& movers matches Some(m) && removal.timer == m[removal.index as int].timer
        && removal.value_calculator == m[removal.index as int].value_calculator
        && m[removal.index as int].parent_sequence == Some(removal.parent_sequence)
    &&& removal.despawn_calculator == destroy_calculator
}

/// What laying a stray path does, once the path timer it replaces is found.
#[derive(Debug, Clone, PartialEq, Eq)]
pub struct StrayPathUpdate {
    /// The path timer taken out.
    pub removal: PathTimerRemoval,
    /// The timers started, in this order: the one that moves the monster along
    /// the stray path in place of the path timer, then the one after which the
    /// monster looks around again.
    pub timer_fire_requests: Vec<TimerFireRequest>,
    /// Announces the new path.
    pub path_updated: MonsterStrayPathUpdated,
}

/// `update` starts the two timers of a stray path for `monster_entity`, both
/// running `timer_duration`: the mover, driven by `new_path_calculator`, which
/// takes the removed path timer's place in its sequence and, once done, sets
/// the animation by that sequence; then a timer with no sequence after which
/// the monster's state is updated. It announces a move by `new_delta`.
pub open spec fn lays_stray_path(
    update: StrayPathUpdate,
    monster_entity: EntityId,
    new_path_calculator: EntityId,
    timer_duration: F32Bits,
    new_delta: Vec2Bits,
) -> bool {
    &&& update.timer_fire_requests@.len() == 2
    &&& update.timer_fire_requests@[0].fires_once_on(
        TimerAffectedEntity {
            affected_entity: monster_entity,
            value_calculator_entity: Some(new_path_calculator),
        },
        TimerDuration::Seconds(timer_duration),
        TimerDoneEventType::SetAnimationCycleByPathParentSequence,
        Some(update.removal.parent_sequence),
    )
    &&& update.timer_fire_requests@[1].fires_once_on(
        TimerAffectedEntity { affected_entity: monster_entity, value_calculator_entity: None },
        TimerDuration::Seconds(timer_duration),
        TimerDoneEventType::UpdateState,
        None,
    )
    &&& update.path_updated == (MonsterStrayPathUpdated { monster_entity, new_delta })
}

/// `result` is what replacing the path of `monster` by a stray path gives: the
/// update when its path timer is found (the timer's calculator goes too when
/// the monster was chasing or fleeing before), else the search's error, with
/// no timer started and nothing announced.
pub open spec fn stray_path_outcome(
    result: Result<StrayPathUpdate, MonsterError>,
    monster: Monster,
    monster_entity: EntityId,
    monster_previous_state: MonsterState,
    movers: Option<Seq<MovementTimer>>,
    new_path_calculator: EntityId,
    timer_duration: F32Bits,
    new_delta: Vec2Bits,
) -> bool {
    match result {
        Ok(update) => {
            &&& removes_path_timer(
                update.removal,
                monster.path_timer_sequence,
                movers,
                monster_previous_state.pursued() is Some,
            )
            &&& lays_stray_path(update, monster_entity, new_path_calculator, timer_duration, new_delta)
        },
        Err(e) => path_timer_search(monster.path_timer_sequence, movers) == Err::<int, MonsterError>(e),
    }
}

/// Lays the stray paths monsters take while chasing or fleeing.
pub struct MonsterStrayPathUpdaterPlugin;

impl MonsterStrayPathUpdaterPlugin {
    /// The stray path for a monster in `monster_state` that moves with respect
    /// to the target of `target_state`, having been in `previous_state`: none
    /// when `target_state` has no target.
    pub fn plan_stray_path(
        monster_state: MonsterState,
        target_state: MonsterState,
        previous_state: MonsterState,
    ) -> (r: Option<StrayPathPlan>)
        ensures
            r == match target_state.pursued() {
                None => None,
                Some(target) => Some(
                    StrayPathPlan {
                        target,
                        approach: if monster_state is Chasing {
                            Approach::Chase
                        } else {
                            Approach::Flee
                        },
                        destroy_previous_calculator: previous_state.pursued() is Some,
                    },
                ),
            },
    {
        match target_state.pursued_entity() {
            None => None,
            Some(target) => {
                let approach = if let MonsterState::Chasing(_) = monster_state {
                    Approach::Chase
                } else {
                    Approach::Flee
                };
                let destroy_previous_calculator = previous_state.pursued_entity().is_some();
                Some(StrayPathPlan { target, approach, destroy_previous_calculator })
            },
        }
    }

    /// Finds the monster's path timer to replace (see `path_timer_search`); the
    /// calculator goes with it when `destroy_calculator` is set.
    pub fn destroy_current_path_timer_and_calculator(
        path_sequence: Option<EntityId>,
        direct_line_movers: &Option<Vec<MovementTimer>>,
        destroy_calculator: bool,
    ) -> (r: Result<PathTimerRemoval, MonsterError>)
        ensures
            match r {
                Ok(removal) => removes_path_timer(
                    removal,
                    path_sequence,
                    movers_view(direct_line_movers),
                    destroy_calculator,
                ),
                Err(e) => path_timer_search(path_sequence, movers_view(direct_line_movers)) == Err::<
                    int,
                    MonsterError,
                >(e),
            },
    {
        match direct_line_movers {
            None => Err(MonsterError::NoMovementAffectingTimerFound),
            Some(movers) => match path_sequence {
                None => Err(MonsterError::MonsterHasNoPathTimerSequenceAssigned),
                Some(sequence) => {
                    let mut i: usize = 0;
                    while i < movers.len()
                        invariant
                            i <= movers.len(),
                            *direct_line_movers == Some(*movers),
                            path_sequence == Some(sequence),
                            forall|j: int| 0 <= j < i ==> !on_path(movers@[j], sequence),
                        decreases movers.len() - i,
                    {
                        let mover = movers[i];
                        if let Some(parent) = mover.parent_sequence {
                            if parent.parent_sequence == sequence {
                                proof {
                                    assert(first_on_path(movers@, sequence, i as int));
                                    let c = choose|k: int| first_on_path(movers@, sequence, k);
                                    if c < i {
                                        assert(!on_path(movers@[c], sequence));
                                    } else if c > i {
                                        assert(!on_path(movers@[i as int], sequence));
                                    }
                                }
                                return Ok(
                                    PathTimerRemoval {
                                        index: i,
                                        timer: mover.timer,
                                        value_calculator: mover.value_calculator,
                                        parent_sequence: parent,
                                        despawn_calculator: destroy_calculator,
                                    },
                                );
                            }
                        }
                        i = i + 1;
                    }
                    if movers.len() > 0 {
                        Err(MonsterError::NoMovementTimerHadTheListedPathParentSequence)
                    } else {
                        Err(MonsterError::NoMovementAffectingTimerFound)
                    }
                },
            },
        }
    }

    /// Replaces the path of `monster` (entity `monster_entity`, in
    /// `monster_previous_state` before) by a stray path: takes out its path
    /// timer among `direct_line_movers`, then starts the stray path's two
    /// timers, driven by `new_path_calculator` for `timer_duration`, and
    /// announces the move by `new_delta`. When no path timer is found, the
    /// search's error comes back and nothing is started or announced.
    pub fn replace_current_path_get_new_delta(
        monster: &Monster,
        monster_entity: EntityId,
        monster_previous_state: MonsterState,
        direct_line_movers: &Option<Vec<MovementTimer>>,
        new_path_calculator: EntityId,
        timer_duration: F32Bits,
        new_delta: Vec2Bits,
    ) -> (r: Result<StrayPathUpdate, MonsterError>)
        ensures
            stray_path_outcome(
                r,
                *monster,
                monster_entity,
                monster_previous_state,
                movers_view(direct_line_movers),
                new_path_calculator,
                timer_duration,
                new_delta,
            ),
    {
        let should_destroy_previous_calculator = monster_previous_state.pursued_entity().is_some();
        let removal = match Self::destroy_current_path_timer_and_calculator(
            monster.path_timer_sequence,
            direct_line_movers,
            should_destroy_previous_calculator,
        ) {
            Ok(removal) => removal,
            Err(e) => {
                return Err(e);
            },
        };
        let mover = TimerFireRequest::for_single_entity(
            monster_entity,
            Some(new_path_calculator),
            TimerDuration::Seconds(timer_duration),
            TimerDoneEventType::SetAnimationCycleByPathParentSequence,
            Some(removal.parent_sequence),
        );
        let state_update = TimerFireRequest::for_single_entity(
            monster_entity,
            None,
            TimerDuration::Seconds(timer_duration),
            TimerDoneEventType::UpdateState,
            None,
        );
        let mut timer_fire_requests: Vec<TimerFireRequest> = Vec::new();
        timer_fire_requests.push(mover);
        timer_fire_requests.push(state_update);
        Ok(
            StrayPathUpdate {
                removal,
                timer_fire_requests,
                path_updated: MonsterStrayPathUpdated { monster_entity, new_delta },
            },
        )
    }

    /// The stray path set off by `event`, for its monster `monster`: none when
    /// the new state has no target; else the replacement of the monster's path
    /// as `replace_current_path_get_new_delta` makes it, with the state before
    /// the change deciding whether the old calculator goes.
    pub fn listen_for_state_set(
        event: &MonsterStateChanged,
        monster: &Monster,
        direct_line_movers: &Option<Vec<MovementTimer>>,
        new_path_calculator: EntityId,
        timer_duration: F32Bits,
        new_delta: Vec2Bits,
    ) -> (r: Option<Result<StrayPathUpdate, MonsterError>>)
        ensures
            r is None <==> event.next_state.pursued() is None,
            r matches Some(result) ==> stray_path_outcome(
                result,
                *monster,
                event.monster,
                event.previous_state,
                movers_view(direct_line_movers),
                new_path_calculator,
                timer_duration,
                new_delta,
            ),
    {
        if event.next_state.pursued_entity().is_none() {
            return None;
        }
        Some(
            Self::replace_current_path_get_new_delta(
                monster,
                event.monster,
                event.previous_state,
                direct_line_movers,
                new_path_calculator,
                timer_duration,
                new_delta,
            ),
        )
    }

    /// The stray path of `monster` laid again in a frame, after its target
    /// moved (`target_moved`): none in a frame with state changes pending (they
    /// lay paths of their own), nor for a monster without a target or whose
    /// target stayed put; else the replacement of its path, its current state
    /// counting as the one before.
    pub fn update_stray_path(
        pending_state_changes: usize,
        monster: &Monster,
        monster_entity: EntityId,
        target_moved: bool,
        direct_line_movers: &Option<Vec<MovementTimer>>,
        new_path_calculator: EntityId,
        timer_duration: F32Bits,
        new_delta: Vec2Bits,
    ) -> (r: Option<Result<StrayPathUpdate, MonsterError>>)
        ensures
            r is None <==> (pending_state_changes > 0 || monster.state.pursued() is None
                || !target_moved),
            r matches Some(result) ==> stray_path_outcome(
                result,
                *monster,
                monster_entity,
                monster.state,
                movers_view(direct_line_movers),
                new_path_calculator,
                timer_duration,
                new_delta,
            ),
    {
        if pending_state_changes > 0 || monster.state.pursued_entity().is_none() || !target_moved {
            return None;
        }
        Some(
            Self::replace_current_path_get_new_delta(
                monster,
                monster_entity,
                monster.state,
                direct_line_movers,
                new_path_calculator,
                timer_duration,
                new_delta,
            ),
        )
    }
}


proof fn lemma_first_on_path_exists(movers: Seq<MovementTimer>, sequence: EntityId, i: int)
    requires
        0 <= i < movers.len(),
        on_path(movers[i], sequence),
    ensures
        exists|k: int| first_on_path(movers, sequence, k),
    decreases i,
{
    if exists|j: int| 0 <= j < i && on_path(movers[j], sequence) {
        let j = choose|j: int| 0 <= j < i && on_path(movers[j], sequence);
        lemma_first_on_path_exists(movers, sequence, j);
    } else {
        assert(first_on_path(movers, sequence, i));
    }
}

/// How a monster's path timer is found among its straight-line movement
/// timers: it is the first of them whose sequence is the monster's path
/// sequence. With no movement timers at all, the error says none affects the
/// monster; with movement timers but no path sequence assigned, it says so;
/// with both but none on the path, it says none has the path sequence.
pub proof fn lemma_path_timer_search(path_sequence: Option<EntityId>, movers: Option<Seq<MovementTimer>>)
    ensures
        forall|t: MovementTimer, s: EntityId|
            #[trigger] on_path(t, s) <==> (t.parent_sequence is Some && t.parent_sequence->0.parent_sequence
                == s),
        movers is None ==> path_timer_search(path_sequence, movers) == Err::<int, MonsterError>(
            MonsterError::NoMovementAffectingTimerFound,
        ),
        movers is Some && path_sequence is None ==> path_timer_search(path_sequence, movers) == Err::<
            int,
            MonsterError,
        >(MonsterError::MonsterHasNoPathTimerSequenceAssigned),
        movers matches Some(m) ==> path_sequence matches Some(s) ==> {
            &&& m.len() == 0 ==> path_timer_search(path_sequence, movers) == Err::<int, MonsterError>(
                MonsterError::NoMovementAffectingTimerFound,
            )
            &&& (m.len() > 0 && forall|j: int| 0 <= j < m.len() ==> !on_path(#[trigger] m[j], s))
                ==> path_timer_search(path_sequence, movers) == Err::<int, MonsterError>(
                MonsterError::NoMovementTimerHadTheListedPathParentSequence,
            )
            &&& (exists|j: int| 0 <= j < m.len() && on_path(#[trigger] m[j], s)) ==> exists|i: int|
                {
                    &&& path_timer_search(path_sequence, movers) == Ok::<int, MonsterError>(i)
                    &&& 0 <= i < m.len()
                    &&& on_path(m[i], s)
                    &&& forall|j: int| 0 <= j < i ==> !on_path(#[trigger] m[j], s)
                }
        },
{
    if let Some(m) = movers {
        if let Some(s) = path_sequence {
            if exists|j: int| 0 <= j < m.len() && on_path(#[trigger] m[j], s) {
                let j = choose|j: int| 0 <= j < m.len() && on_path(#[trigger] m[j], s);
                lemma_first_on_path_exists(m, s, j);
                let i = choose|i: int| first_on_path(m, s, i);
                assert(path_timer_search(path_sequence, movers) == Ok::<int, MonsterError>(i));
            }
        }
    }
}


/// A stray path that is laid starts exactly two timers, both acting on the
/// monster alone and running the stray path's duration: first the mover,
/// driven by the new calculator, in the removed path timer's place in its
/// sequence, which once done sets the animation by that sequence; then a timer
/// outside any sequence after which the monster looks around again. The old
/// path's calculator goes too exactly when the monster was chasing or fleeing
/// before, and the move announced is the one given, for that monster.
pub proof fn lemma_stray_path_timers(
    update: StrayPathUpdate,
    monster: Monster,
    monster_entity: EntityId,
    monster_previous_state: MonsterState,
    movers: Option<Seq<MovementTimer>>,
    new_path_calculator: EntityId,
    timer_duration: F32Bits,
    new_delta: Vec2Bits,
)
    requires
        stray_path_outcome(
            Ok(update),
            monster,
            monster_entity,
            monster_previous_state,
            movers,
            new_path_calculator,
            timer_duration,
            new_delta,
        ),
    ensures
        update.timer_fire_requests@.len() == 2,
        update.timer_fire_requests@[0].timer.affected_entities@ == seq![
            TimerAffectedEntity {
                affected_entity: monster_entity,
                value_calculator_entity: Some(new_path_calculator),
            },
        ],
        update.timer_fire_requests@[0].timer.duration == TimerDuration::Seconds(timer_duration),
        update.timer_fire_requests@[0].timer.send_once_done
            == TimerDoneEventType::SetAnimationCycleByPathParentSequence,
        update.timer_fire_requests@[0].parent_sequence == Some(update.removal.parent_sequence),
        update.timer_fire_requests@[1].timer.affected_entities@ == seq![
            TimerAffectedEntity { affected_entity: monster_entity, value_calculator_entity: None },
        ],
        update.timer_fire_requests@[1].timer.duration == TimerDuration::Seconds(timer_duration),
        update.timer_fire_requests@[1].timer.send_once_done == TimerDoneEventType::UpdateState,
        update.timer_fire_requests@[1].parent_sequence is None,
        update.removal.despawn_calculator <==> (monster_previous_state is Chasing
            || monster_previous_state is Fleeing),
        update.path_updated.monster_entity == monster_entity,
        update.path_updated.new_delta == new_delta,
        movers matches Some(m) && update.removal.timer == m[update.removal.index as int].timer
            && m[update.removal.index as int].parent_sequence == Some(update.removal.parent_sequence),
        monster.path_timer_sequence == Some(update.removal.parent_sequence.parent_sequence),
{
    lemma_path_timer_search(monster.path_timer_sequence, movers);
}

} // verus!
