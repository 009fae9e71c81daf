use vstd::prelude::*;
use crate::entity::EntityId;
use crate::palette::PaletteColor;

verus! {

/// What a monster is up to: fading in, wandering its path, chasing someone, or
/// running from a bomb.
#[derive(Debug, Clone, Copy, PartialEq, Eq, Structural)]
pub enum MonsterState {
    Spawning,
    Idle,
    Chasing(EntityId),
    Fleeing(EntityId),
}

impl Default for MonsterState {
    fn default() -> (r: MonsterState)
        ensures
            r == MonsterState::Idle,
    {
        MonsterState::Idle
    }
}

impl MonsterState {
    /// The entity the monster moves with respect to: the one it chases or the
    /// one it flees.
    pub open spec fn pursued(self) -> Option<EntityId> {
        match self {
            MonsterState::Chasing(entity) => Some(entity),
            MonsterState::Fleeing(entity) => Some(entity),
            _ => None,
        }
    }

    /// The entity the monster moves with respect to, if any.
    pub fn pursued_entity(&self) -> (r: Option<EntityId>)
        ensures
            r == self.pursued(),
    {
        match self {
            MonsterState::Chasing(entity) => Some(*entity),
            MonsterState::Fleeing(entity) => Some(*entity),
            _ => None,
        }
    }

    /// The colour of the hearing ring drawn around a monster in this state.
    pub fn to_hearing_ring_gizmo_color(&self) -> (r: PaletteColor)
        ensures
            r == match self {
                MonsterState::Spawning => PaletteColor::Pink,
                MonsterState::Idle => PaletteColor::Gray,
                MonsterState::Chasing(_) => PaletteColor::Maroon,
                MonsterState::Fleeing(_) => PaletteColor::Olive,
            },
    {
        match self {
            MonsterState::Spawning => PaletteColor::Pink,
            MonsterState::Idle => PaletteColor::Gray,
            MonsterState::Chasing(_) => PaletteColor::Maroon,
            MonsterState::Fleeing(_) => PaletteColor::Olive,
        }
    }
}


/// A chasing monster pursues the one it chases and a fleeing one the bomb it
/// flees; a wandering or fading-in monster pursues nothing.
pub proof fn lemma_what_a_monster_pursues(target: EntityId)
    ensures
        MonsterState::Chasing(target).pursued() == Some(target),
        MonsterState::Fleeing(target).pursued() == Some(target),
        MonsterState::Idle.pursued() is None,
        MonsterState::Spawning.pursued() is None,
{
}

} // verus!
