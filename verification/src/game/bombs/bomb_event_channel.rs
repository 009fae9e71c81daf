use vstd::prelude::*;

verus! {

/// What the player asks of bombs.
#[derive(Debug, Clone, Copy, PartialEq, Eq, Structural)]
pub enum BombRequest {
    PickUp,
    Release,
}

} // verus!
