use vstd::prelude::*;
use crate::entity::EntityId;

verus! {

/// The player, as far as the rules are concerned: the bomb it holds, if any.
#[derive(Debug, Clone, Copy, PartialEq, Eq, Structural)]
pub struct Player {
    pub held_bomb: Option<EntityId>,
}

} // verus!
