use vstd::prelude::*;
use crate::float_bits::{F32Bits, Vec3Bits};

verus! {

/// Bit pattern of `0.0`.
pub const ZERO_BITS: u32 = 0x0000_0000;

/// Bit pattern of `1.0`.
pub const ONE_BITS: u32 = 0x3F80_0000;

/// The direction something faces, with its drawing layer as third coordinate.
#[derive(Debug, Clone, Copy, PartialEq, Eq, Structural)]
pub struct FacingDirection(pub Vec3Bits);

impl FacingDirection {
    /// Facing up (the unit `y` vector) on the layer `z_layer`.
    pub fn new(z_layer: F32Bits) -> (r: FacingDirection)
        ensures
            r.0.x.bits == ZERO_BITS,
            r.0.y.bits == ONE_BITS,
            r.0.z == z_layer,
    {
        FacingDirection(
            Vec3Bits { x: F32Bits::from_bits(ZERO_BITS), y: F32Bits::from_bits(ONE_BITS), z: z_layer },
        )
    }
}

} // verus!
