use vstd::prelude::*;

verus! {

/// The named colours the rules choose between; the engine side maps each to
/// its colour of the CSS and basic palettes.
#[derive(Debug, Clone, Copy, PartialEq, Eq, Structural)]
pub enum PaletteColor {
    Red,
    White,
    Silver,
    DarkOrange,
    Yellow,
    Pink,
    Gray,
    Maroon,
    Olive,
}

} // verus!
