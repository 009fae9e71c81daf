use vstd::prelude::*;

verus! {

/// Where a bomb is in its life: lying on the floor, held by the player, thrown,
/// or gone off.
#[derive(Debug, Clone, Copy, PartialEq, Eq, Structural)]
pub enum BombState {
    PreHeld,
    Held,
    PostHeld,
    Exploded,
}

} // verus!
