use vstd::prelude::*;
use crate::entity::EntityId;
use crate::game::monsters::monster_events::MonsterStateChanged;
use crate::game::monsters::monster_state::MonsterState;

verus! {

/// How a monster's looks change with its state.
#[derive(Debug, Clone, Copy, PartialEq, Eq, Structural)]
pub enum ChaseVisualChange {
    /// The monster grows and becomes opaque as it starts a chase.
    ApplyChaseVisuals,
    /// The monster shrinks back and fades as it gives the chase up.
    CancelChaseVisuals,
}

/// A wandering or fleeing monster starts chasing.
pub open spec fn starts_chase(event: MonsterStateChanged) -> bool {
    (event.previous_state is Fleeing || event.previous_state is Idle) && event.next_state is Chasing
}

/// A chasing monster starts wandering or fleeing.
pub open spec fn ends_chase(event: MonsterStateChanged) -> bool {
    event.previous_state is Chasing && (event.next_state is Fleeing || event.next_state is Idle)
}

/// Shows a monster's state changes in its looks.
pub struct MonsterStateChangeVisualizerPlugin;

impl MonsterStateChangeVisualizerPlugin {
    pub fn should_apply_chase_visuals(event: &MonsterStateChanged) -> (r: bool)
        ensures
            r == starts_chase(*event),
    {
        match event.previous_state {
            MonsterState::Fleeing(_) | MonsterState::Idle => {
                if let MonsterState::Chasing(_) = event.next_state {
                    return true;
                }
            },
            _ => {},
        }
        false
    }

    pub fn should_cancel_chase_visuals(event: &MonsterStateChanged) -> (r: bool)
        ensures
            r == ends_chase(*event),
    {
        if let MonsterState::Chasing(_) = event.previous_state {
            match event.next_state {
                MonsterState::Fleeing(_) | MonsterState::Idle => {
                    return true;
                },
                _ => {},
            }
        }
        false
    }

    /// The change of looks `event` calls for, if any.
    pub fn determine_visualize_change(event: &MonsterStateChanged) -> (r: Option<ChaseVisualChange>)
        ensures
            r == (if starts_chase(*event) {
                Some(ChaseVisualChange::ApplyChaseVisuals)
            } else if ends_chase(*event) {
                Some(ChaseVisualChange::CancelChaseVisuals)
            } else {
                None
            }),
    {
        if Self::should_apply_chase_visuals(event) {
            Some(ChaseVisualChange::ApplyChaseVisuals)
        } else if Self::should_cancel_chase_visuals(event) {
            Some(ChaseVisualChange::CancelChaseVisuals)
        } else {
            None
        }
    }
}

/// No state change both starts and ends a chase.
pub proof fn lemma_chase_visuals_exclusive(event: MonsterStateChanged)
    ensures
        !(starts_chase(event) && ends_chase(event)),
{
}


/// The chase looks come on whenever a monster that was wandering or fleeing
/// sets off after someone, and go off whenever a chasing monster stops to
/// wander or flee: a change starts a chase exactly when the reverse change
/// ends one. Fading in or staying on a chase changes nothing.
pub proof fn lemma_chase_looks_follow_chases(event: MonsterStateChanged, x: EntityId, y: EntityId)
    ensures
        starts_chase(
            MonsterStateChanged {
                previous_state: MonsterState::Idle,
                next_state: MonsterState::Chasing(x),
                ..event
            },
        ),
        starts_chase(
            MonsterStateChanged {
                previous_state: MonsterState::Fleeing(y),
                next_state: MonsterState::Chasing(x),
                ..event
            },
        ),
        ends_chase(
            MonsterStateChanged {
                previous_state: MonsterState::Chasing(x),
                next_state: MonsterState::Idle,
                ..event
            },
        ),
        ends_chase(
            MonsterStateChanged {
                previous_state: MonsterState::Chasing(x),
                next_state: MonsterState::Fleeing(y),
                ..event
            },
        ),
        !starts_chase(
            MonsterStateChanged {
                previous_state: MonsterState::Spawning,
                next_state: MonsterState::Chasing(x),
                ..event
            },
        ),
        !starts_chase(
            MonsterStateChanged {
                previous_state: MonsterState::Chasing(y),
                next_state: MonsterState::Chasing(x),
                ..event
            },
        ),
        !(event.next_state is Chasing) ==> !starts_chase(event),
        starts_chase(event) <==> ends_chase(
            MonsterStateChanged {
                previous_state: event.next_state,
                next_state: event.previous_state,
                ..event
            },
        ),
        (event.previous_state is Idle || event.previous_state is Fleeing) && event.next_state is Chasing
            ==> starts_chase(event),
{
}

} // verus!
