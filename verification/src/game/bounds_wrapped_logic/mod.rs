use vstd::prelude::*;
use crate::float_bits::{F32Bits, Vec3Bits};

pub mod bounds_wrapped_phantom;
pub mod phantom_manager;

verus! {

/// Bit pattern of half the window's side, in pixels (`400.0`).
pub const HALF_WINDOW_SIZE_BITS: u32 = 0x43C8_0000;

pub open spec fn half_window_size() -> F32Bits {
    F32Bits { bits: HALF_WINDOW_SIZE_BITS }
}

/// A coordinate that left the screen on one side comes back at the other
/// edge: below `-half` it goes to `half`, above `half` to `-half`; anything
/// else (NaN too) stays.
pub open spec fn wrapped_coordinate(value: F32Bits, half: F32Bits) -> F32Bits {
    if value.less_than(half.negated()) {
        half
    } else if half.less_than(value) {
        half.negated()
    } else {
        value
    }
}

/// One coordinate wrapped around the screen edges `-half` and `half`.
fn wrap_coordinate(value: F32Bits, half: F32Bits) -> (r: F32Bits)
    ensures
        r == wrapped_coordinate(value, half),
{
    let negative_half = half.neg();
    let mut updated = value;
    if updated.lt(&negative_half) {
        updated = half;
    }
    if half.lt(&updated) {
        updated = negative_half;
    }
    updated
}

/// Where something that reached beyond a screen border shows up again: each of
/// `x` and `y` wrapped around the window's edges; the layer `z` is kept.
pub fn calculate_reach_beyond_screen_border(original_translation: Vec3Bits) -> (r: Vec3Bits)
    ensures
        r.x == wrapped_coordinate(original_translation.x, half_window_size()),
        r.y == wrapped_coordinate(original_translation.y, half_window_size()),
        r.z == original_translation.z,
{
    let half = F32Bits::from_bits(HALF_WINDOW_SIZE_BITS);
    Vec3Bits {
        x: wrap_coordinate(original_translation.x, half),
        y: wrap_coordinate(original_translation.y, half),
        z: original_translation.z,
    }
}

/// Wrapping lands every non-NaN coordinate on the screen: between `-half` and
/// `half`, for any non-negative `half`.
pub proof fn lemma_wrapped_coordinate_on_screen(value: F32Bits, half: F32Bits)
    requires
        !value.nan(),
        !half.nan(),
        half.ordinal() >= 0,
    ensures
        half.negated().at_most(wrapped_coordinate(value, half)),
        wrapped_coordinate(value, half).at_most(half),
{
    crate::float_bits::lemma_negated_ordinal(half);
}

/// A coordinate already on the screen is left where it is.
pub proof fn lemma_wrapped_coordinate_keeps_on_screen(value: F32Bits, half: F32Bits)
    requires
        half.negated().at_most(value),
        value.at_most(half),
    ensures
        wrapped_coordinate(value, half) == value,
{
    crate::float_bits::lemma_negated_ordinal(half);
}

/// Wrapping twice is wrapping once.
pub proof fn lemma_wrapping_idempotent(value: F32Bits, half: F32Bits)
    requires
        !half.nan(),
        half.ordinal() >= 0,
    ensures
        wrapped_coordinate(wrapped_coordinate(value, half), half) == wrapped_coordinate(value, half),
{
    crate::float_bits::lemma_negated_ordinal(half);
    if !value.nan() {
        lemma_wrapped_coordinate_on_screen(value, half);
        lemma_wrapped_coordinate_keeps_on_screen(wrapped_coordinate(value, half), half);
    }
}

/// What leaves the screen on one side comes back on the opposite edge: past the
/// low edge it reappears at the high edge, past the high edge at the low edge.
pub proof fn lemma_wrapping_crosses_to_the_opposite_edge(value: F32Bits, half: F32Bits)
    requires
        !half.nan(),
        half.ordinal() >= 0,
    ensures
        value.less_than(half.negated()) ==> wrapped_coordinate(value, half) == half,
        half.less_than(value) ==> wrapped_coordinate(value, half) == half.negated(),
{
    crate::float_bits::lemma_negated_ordinal(half);
}

/// Lets entities leave the screen on one side and come back at the other.
pub struct BoundsWrappedLogicPlugin;

} // verus!
