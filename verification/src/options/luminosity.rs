use vstd::prelude::*;

verus! {

/// The luminosity of the color.
#[derive(Default, Debug, Clone, Copy, PartialEq, Eq, Structural)]
pub enum Luminosity {
    #[default]
    Random,
    Bright,
    Light,
    Dark,
}

} // verus!
