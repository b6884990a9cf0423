//! Player identity as seen by the board.
//!
//! Squares, pieces, the turn marker and the winner marker all refer to a
//! player through this small variant type; `Empty` stands for "no player"
//! (an unoccupied square, no turn assigned yet, no winner yet).  The match
//! keeps the mapping from these identifiers to the player name strings.

use vstd::prelude::*;

verus! {

#[derive(Clone, Copy, Debug, PartialEq, Eq, Structural)]
pub enum Owner {
    Empty,
    PlayerOne,
    PlayerTwo,
}

impl Owner {
    /// The player on the other side; `Empty` has no opponent.
    pub open spec fn spec_opponent(self) -> Owner {
        match self {
            Owner::Empty => Owner::Empty,
            Owner::PlayerOne => Owner::PlayerTwo,
            Owner::PlayerTwo => Owner::PlayerOne,
        }
    }

    pub fn opponent(self) -> (r: Owner)
        ensures
            r == self.spec_opponent(),
    {
        match self {
            Owner::Empty => Owner::Empty,
            Owner::PlayerOne => Owner::PlayerTwo,
            Owner::PlayerTwo => Owner::PlayerOne,
        }
    }
}

} // verus!
