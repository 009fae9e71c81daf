use vstd::prelude::*;
use crate::entity::EntityId;
use crate::float_bits::F32Bits;
use crate::game::event_channels::GameEvent;

verus! {

/// Where a timer stands in the sequence that fired it.
#[derive(Debug, Clone, Copy, PartialEq, Eq, Structural)]
pub struct TimerParentSequence {
    pub parent_sequence: EntityId,
    pub index_in_sequence: usize,
}

/// A running timer together with the calculator that drives the value it moves.
#[derive(Debug, Clone, Copy, PartialEq, Eq, Structural)]
pub struct TimerAndCalculator {
    pub timer: EntityId,
    pub value_calculator: EntityId,
}

/// What the rules ask of the game's time multiplier.
#[derive(Debug, Clone, Copy, PartialEq, Eq, Structural)]
pub enum TimeScaleRequest {
    /// Slow the game down, as while a bomb is held.
    SlowMotion,
    /// Back to normal speed.
    NormalSpeed,
}

/// What a spawning timer asks for once done.
#[derive(Debug, Clone, Copy, PartialEq, Eq, Structural)]
pub enum SpawnRequestType {
    Bomb,
    Monster,
    BombText,
}

/// Which entities go when a despawning timer is done.
#[derive(Debug, Clone, Copy, PartialEq, Eq, Structural)]
pub enum DespawnPolicy {
    DespawnSelf,
    DespawnSelfAndAllThatAffectsIt,
}

/// What a timer announces when it is done.
#[derive(Debug, Clone, Copy, PartialEq, Eq, Structural)]
pub enum TimerDoneEventType {
    Nothing,
    GameEvent(GameEvent),
    Spawn(SpawnRequestType),
    SpawnChildForAffectedEntities(SpawnRequestType),
    ExplodeInRadius(F32Bits),
    DespawnAffectedEntities(DespawnPolicy),
    DeclareSpawnDone,
    UpdateState,
    SetAnimationCycleByPathParentSequence,
}

/// An entity a timer acts on, with the calculator that drives the value the
/// timer moves on it, if any.
#[derive(Debug, Clone, Copy, PartialEq, Eq, Structural)]
pub struct TimerAffectedEntity {
    pub affected_entity: EntityId,
    pub value_calculator_entity: Option<EntityId>,
}

/// How long a timer runs.
#[derive(Debug, Clone, Copy, PartialEq, Eq, Structural)]
pub enum TimerDuration {
    /// A length in seconds, as measured.
    Seconds(F32Bits),
    /// A whole number of seconds, such as a bomb's fuse.
    WholeSeconds(usize),
}

/// A timer as it is set up: what it acts on, for how long, and what it
/// announces when done. It runs on the game's time multiplier.
#[derive(Debug, Clone, PartialEq, Eq)]
pub struct EmittingTimer {
    pub affected_entities: Vec<TimerAffectedEntity>,
    pub duration: TimerDuration,
    pub send_once_done: TimerDoneEventType,
}

/// A request to start a timer, as a step of the sequence `parent_sequence`
/// when it has one.
#[derive(Debug, Clone, PartialEq, Eq)]
pub struct TimerFireRequest {
    pub timer: EmittingTimer,
    pub parent_sequence: Option<TimerParentSequence>,
}

/// What a timer announces when it is done.
#[derive(Debug, Clone, PartialEq, Eq)]
pub struct TimerDoneEvent {
    pub event_type: TimerDoneEventType,
    pub affected_entities: Vec<TimerAffectedEntity>,
    pub timer_entity: EntityId,
    pub timer_parent_sequence: Option<TimerParentSequence>,
}

impl EmittingTimer {
    /// The timer acts on `affected` alone, runs for `duration` and announces
    /// `send_once_done`.
    pub open spec fn acts_once_on(
        self,
        affected: TimerAffectedEntity,
        duration: TimerDuration,
        send_once_done: TimerDoneEventType,
    ) -> bool {
        &&& self.affected_entities@ == seq![affected]
        &&& self.duration == duration
        &&& self.send_once_done == send_once_done
    }

    /// A timer that acts on `affected_entity` alone, through
    /// `value_calculator_entity` when given.
    pub fn for_single_entity(
        affected_entity: EntityId,
        value_calculator_entity: Option<EntityId>,
        duration: TimerDuration,
        send_once_done: TimerDoneEventType,
    ) -> (r: EmittingTimer)
        ensures
            r.acts_once_on(
                TimerAffectedEntity { affected_entity, value_calculator_entity },
                duration,
                send_once_done,
            ),
    {
        let mut affected_entities: Vec<TimerAffectedEntity> = Vec::new();
        affected_entities.push(TimerAffectedEntity { affected_entity, value_calculator_entity });
        assert(affected_entities@ =~= seq![TimerAffectedEntity { affected_entity, value_calculator_entity }]);
        EmittingTimer { affected_entities, duration, send_once_done }
    }
}

impl TimerFireRequest {
    /// The request starts a timer acting on `affected` alone, for `duration`,
    /// announcing `send_once_done`, in the sequence `parent_sequence`.
    pub open spec fn fires_once_on(
        self,
        affected: TimerAffectedEntity,
        duration: TimerDuration,
        send_once_done: TimerDoneEventType,
        parent_sequence: Option<TimerParentSequence>,
    ) -> bool {
        &&& self.timer.acts_once_on(affected, duration, send_once_done)
        &&& self.parent_sequence == parent_sequence
    }

    /// A request for a timer acting on `affected_entity` alone.
    pub fn for_single_entity(
        affected_entity: EntityId,
        value_calculator_entity: Option<EntityId>,
        duration: TimerDuration,
        send_once_done: TimerDoneEventType,
        parent_sequence: Option<TimerParentSequence>,
    ) -> (r: TimerFireRequest)
        ensures
            r.fires_once_on(
                TimerAffectedEntity { affected_entity, value_calculator_entity },
                duration,
                send_once_done,
                parent_sequence,
            ),
    {
        let timer = EmittingTimer::for_single_entity(
            affected_entity,
            value_calculator_entity,
            duration,
            send_once_done,
        );
        TimerFireRequest { timer, parent_sequence }
    }
}

/// A copy of the entities a timer acts on.
pub fn copy_affected_entities(affected: &Vec<TimerAffectedEntity>) -> (r: Vec<TimerAffectedEntity>)
    ensures
        r@ == affected@,
{
    let mut r: Vec<TimerAffectedEntity> = Vec::new();
    let mut i: usize = 0;
    while i < affected.len()
        invariant
            i <= affected.len(),
            r@ == affected@.subrange(0, i as int),
        decreases affected.len() - i,
    {
        r.push(affected[i]);
        i = i + 1;
    }
    assert(affected@.subrange(0, affected.len() as int) =~= affected@);
    r
}

} // verus!
