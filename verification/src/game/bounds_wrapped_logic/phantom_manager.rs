use vstd::prelude::*;
use crate::game::bounds_wrapped_logic::bounds_wrapped_phantom::BoundsWrappedPhantom;

verus! {

/// Keeps the phantoms of wrapped entities in place.
pub struct PhantomManagerPlugin;

impl PhantomManagerPlugin {
    /// The place, among the places relative to its parent, that a phantom
    /// takes: the one its index picks, none for an index out of range.
    pub fn phantom_location<T: Copy>(phantom: &BoundsWrappedPhantom, locations: &Vec<T>) -> (r: Option<T>)
        ensures
            r == (if phantom.index < locations.len() {
                Some(locations@[phantom.index as int])
            } else {
                None
            }),
    {
        if phantom.index < locations.len() {
            Some(locations[phantom.index])
        } else {
            None
        }
    }
}

} // verus!
