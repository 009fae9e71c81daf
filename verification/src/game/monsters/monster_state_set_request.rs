use vstd::prelude::*;
use crate::entity::EntityId;
use crate::game::monsters::monster_state::MonsterState;

verus! {

/// A request to move a monster from one state to another.
#[derive(Debug, Clone, Copy, PartialEq, Eq, Structural)]
pub struct MonsterStateSetRequest {
    pub monster: EntityId,
    pub next_state: MonsterState,
    pub previous_state: MonsterState,
}

} // verus!
