use vstd::prelude::*;

verus! {

/// How many phantoms follow a wrapped entity: one beyond each border it is
/// closest to, and one beyond the corner between them.
pub const BOUNDS_WRAPPED_PHANTOMS_PER_PARENT: usize = 3;

/// A copy of a wrapped entity shown beyond a screen border, so that what
/// crosses the border is seen on both sides; `index` picks its screen.
#[derive(Debug, Clone, Copy, PartialEq, Eq, Structural)]
pub struct BoundsWrappedPhantom {
    pub index: usize,
}

} // verus!
