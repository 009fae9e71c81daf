use vstd::prelude::*;
use crate::entity::EntityId;

verus! {

/// The timer sequence that spawns monsters, once started.
#[derive(Debug, Clone, Copy, PartialEq, Eq, Structural)]
pub struct MonsterSpawnSequence(pub Option<EntityId>);

} // verus!
