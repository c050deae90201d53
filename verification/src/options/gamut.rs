use vstd::prelude::*;

verus! {

/// The gamut (hue category) of the color.
#[derive(Default, Debug, Clone, Copy, PartialEq, Eq, Structural)]
pub enum Gamut {
    #[default]
    Monochrome,
    Red,
    Orange,
    Yellow,
    Green,
    Blue,
    Purple,
    Pink,
}

} // verus!
