use vstd::prelude::*;
use crate::entity::EntityId;
use crate::float_bits::Vec2Bits;
use crate::game::monsters::monster_state::MonsterState;

verus! {

/// A monster's state changed.
#[derive(Debug, Clone, Copy, PartialEq, Eq, Structural)]
pub struct MonsterStateChanged {
    pub monster: EntityId,
    pub next_state: MonsterState,
    pub previous_state: MonsterState,
}

/// A monster set off on a new stray path, moving by `new_delta`.
#[derive(Debug, Clone, Copy, PartialEq, Eq, Structural)]
pub struct MonsterStrayPathUpdated {
    pub monster_entity: EntityId,
    pub new_delta: Vec2Bits,
}

impl MonsterStateChanged {
    /// The monster finished fading in and starts wandering.
    pub open spec fn spawn_phase_ended(self) -> bool {
        self.previous_state == MonsterState::Spawning && self.next_state == MonsterState::Idle
    }

    /// Whether the change ends the monster's spawn phase: its path and its
    /// flying animation start then.
    pub fn ends_spawn_phase(&self) -> (r: bool)
        ensures
            r == self.spawn_phase_ended(),
    {
        self.previous_state == MonsterState::Spawning && self.next_state == MonsterState::Idle
    }
}


/// Only a monster that finished fading in, going from fading in to
/// wandering, ends its spawn phase; no other change does.
pub proof fn lemma_spawn_phase_ends_once(event: MonsterStateChanged)
    ensures
        event.spawn_phase_ended() <==> (event.previous_state is Spawning && event.next_state is Idle),
{
}

} // verus!
