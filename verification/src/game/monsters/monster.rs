use vstd::prelude::*;
use crate::entity::EntityId;
use crate::float_bits::F32Bits;
use crate::game::monsters::monster_state::MonsterState;

verus! {

/// What the rules track of a monster: how far it hears, what it is up to, and
/// the timer sequences that move and animate it. Its path is geometry and stays
/// with the engine.
#[derive(Debug, Clone, Copy, PartialEq, Eq, Structural)]
pub struct Monster {
    pub hearing_ring_distance: F32Bits,
    pub state: MonsterState,
    pub path_timer_sequence: Option<EntityId>,
    pub animation_timer_sequence: Option<EntityId>,
}

impl Monster {
    /// A monster just spawned: fading in, with no path or animation yet.
    pub fn spawning(hearing_ring_distance: F32Bits) -> (r: Monster)
        ensures
            r == (Monster {
                hearing_ring_distance,
                state: MonsterState::Spawning,
                path_timer_sequence: None,
                animation_timer_sequence: None,
            }),
    {
        Monster {
            hearing_ring_distance,
            state: MonsterState::Spawning,
            path_timer_sequence: None,
            animation_timer_sequence: None,
        }
    }

    /// The monster is animated by `new_sequence` from now on; the sequence it
    /// had before, if any, is returned to be despawned.
    pub fn replace_animation_timer_sequence(&mut self, new_sequence: EntityId) -> (previous: Option<
        EntityId,
    >)
        ensures
            previous == old(self).animation_timer_sequence,
            *final(self) == (Monster {
                animation_timer_sequence: Some(new_sequence),
                ..*old(self)
            }),
    {
        let previous = self.animation_timer_sequence;
        self.animation_timer_sequence = Some(new_sequence);
        previous
    }

    /// The monster walks the path sequence `path_sequence` from now on.
    pub fn assign_path_timer_sequence(&mut self, path_sequence: EntityId)
        ensures
            *final(self) == (Monster { path_timer_sequence: Some(path_sequence), ..*old(self) }),
    {
        self.path_timer_sequence = Some(path_sequence);
    }
}

} // verus!
