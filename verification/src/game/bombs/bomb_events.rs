use vstd::prelude::*;
use crate::float_bits::Vec3Bits;

verus! {

/// A bomb went off at `location`, killing `monster_hit_count` monsters and
/// possibly the player.
#[derive(Debug, Clone, Copy, PartialEq, Eq, Structural)]
pub struct BombExploded {
    pub location: Vec3Bits,
    pub monster_hit_count: usize,
    pub hit_player: bool,
}

} // verus!
