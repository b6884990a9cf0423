//! The piece value held by every square.
//!
//! Every square carries one `CheckerPiece`; an unoccupied square holds the
//! vacant value (owner `Empty`, direction 0, not kinged).  The location is
//! kept on the piece as well and always equals the coordinates of the
//! square that holds it.

use vstd::prelude::*;

use crate::owner::Owner;

verus! {

#[derive(Clone, Copy, Debug)]
pub struct CheckerPiece {
    /// True once the piece has reached the opponent's back rank.
    pub kinged: bool,
    /// The player owning the piece, or `Empty` for an unoccupied square.
    pub owner: Owner,
    /// Forward direction of travel: +1 or -1 for a real piece, 0 when vacant.
    pub direction: i32,
    /// The `(row, col)` of the square currently holding the piece.
    pub loc: (usize, usize),
}

/// The piece value of an unoccupied square at `loc`.
pub open spec fn spec_vacant_piece(loc: (usize, usize)) -> CheckerPiece {
    CheckerPiece { kinged: false, owner: Owner::Empty, direction: 0, loc }
}

impl CheckerPiece {
    /// A vacant piece at a placeholder location off the board.
    pub fn init() -> (p: CheckerPiece)
        ensures
            p == spec_vacant_piece((usize::MAX, usize::MAX)),
    {
        CheckerPiece { kinged: false, owner: Owner::Empty, direction: 0, loc: (usize::MAX, usize::MAX) }
    }

    /// A vacant piece tagged with the coordinates of its square.
    pub fn init_with_loc(loc: (usize, usize)) -> (p: CheckerPiece)
        ensures
            p == spec_vacant_piece(loc),
    {
        CheckerPiece { kinged: false, owner: Owner::Empty, direction: 0, loc }
    }
}

} // verus!
