//! Where a menu opens relative to its toggle.

use vstd::prelude::*;

verus! {

/// The side on which a menu is aligned.
#[derive(Clone, Copy, Debug, PartialEq, Eq, Structural)]
pub enum Position {
    Left,
    Right,
    Top,
}

impl Default for Position {
    fn default() -> (position: Self)
        ensures
            position == Position::Left,
    {
        Position::Left
    }
}

} // verus!
