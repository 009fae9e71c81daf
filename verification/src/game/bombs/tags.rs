use vstd::prelude::*;

verus! {

/// Marks a bomb that has finished growing and can collide.
#[derive(Debug, Clone, Copy, PartialEq, Eq, Structural)]
pub struct BombTag;

/// Whether an entity is already being taken care of by some explosion.
#[derive(Debug, Clone, Copy, PartialEq, Eq, Structural)]
pub struct BombAffected {
    pub currently_affected_by_bomb: bool,
}

/// Marks the light that shows where a held bomb would go off.
#[derive(Debug, Clone, Copy, PartialEq, Eq, Structural)]
pub struct BombExplosionPreview;

} // verus!
