//! The palette of the game.

use vstd::prelude::*;

verus! {

/// The colors the game paints with. `Transparent` is the zero color: all
/// four channels off.
#[derive(Clone, Copy, Debug, PartialEq, Eq, Structural)]
pub enum Color {
    Black,
    White,
    SkyBlue,
    Yellow,
    Green,
    Orange,
    Red,
    Transparent,
}

} // verus!
