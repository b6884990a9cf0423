//! One square of the board, and its textual rendering.

use vstd::prelude::*;
use vstd::string::StringExecFns;

use crate::checkers_piece::{spec_vacant_piece, CheckerPiece};
use crate::owner::Owner;

verus! {

#[derive(Clone, Copy, Debug)]
pub struct Position {
    /// Side ownership, assigned to the two back ranks at setup time and
    /// used only to validate the initial layout.
    pub owner: Owner,
    /// The piece value held by the square; vacant squares hold the
    /// vacant piece.
    pub occupant: CheckerPiece,
    /// True on the non-playable color of the checkerboard pattern.
    pub blocked: bool,
}

/// The single decimal digit for a coordinate `n` in `0..8`.
pub open spec fn spec_digit(n: int) -> Seq<char> {
    if n == 0 {
        "0"@
    } else if n == 1 {
        "1"@
    } else if n == 2 {
        "2"@
    } else if n == 3 {
        "3"@
    } else if n == 4 {
        "4"@
    } else if n == 5 {
        "5"@
    } else if n == 6 {
        "6"@
    } else {
        "7"@
    }
}

/// The name rendered for an owner: a player's name, or the sentinel.
pub open spec fn spec_owner_name(o: Owner, player1: Seq<char>, player2: Seq<char>) -> Seq<char> {
    match o {
        Owner::Empty => "empty"@,
        Owner::PlayerOne => player1,
        Owner::PlayerTwo => player2,
    }
}

/// The compact rendering of one square: `X` for a blocked square, the
/// `(row, col, owner)` triple otherwise.
pub open spec fn spec_position_render(p: Position, player1: Seq<char>, player2: Seq<char>) -> Seq<
    char,
> {
    if p.blocked {
        "X"@
    } else {
        "("@ + spec_digit(p.occupant.loc.0 as int) + ", "@ + spec_digit(p.occupant.loc.1 as int)
            + ", "@ + spec_owner_name(p.occupant.owner, player1, player2) + ")"@
    }
}

/// The single-digit text of a coordinate in `0..8`.
pub(crate) fn digit_str(n: usize) -> (r: &'static str)
    requires
        n < 8,
    ensures
        r@ == spec_digit(n as int),
{
    match n {
        0 => "0",
        1 => "1",
        2 => "2",
        3 => "3",
        4 => "4",
        5 => "5",
        6 => "6",
        _ => "7",
    }
}

impl Position {
    /// A fresh unowned, unblocked, unoccupied square at `loc`.
    pub fn init_with_loc(loc: (usize, usize)) -> (p: Position)
        ensures
            p.owner == Owner::Empty,
            p.occupant == spec_vacant_piece(loc),
            !p.blocked,
    {
        Position { owner: Owner::Empty, occupant: CheckerPiece::init_with_loc(loc), blocked: false }
    }

    /// The compact rendering of this square, with the given player names
    /// standing in for the owner identifiers.
    pub fn to_string(&self, player1: &str, player2: &str) -> (r: String)
        requires
            self.occupant.loc.0 < 8,
            self.occupant.loc.1 < 8,
        ensures
            r@ == spec_position_render(*self, player1@, player2@),
    {
        if self.blocked {
            return "X".to_owned();
        }
        let mut s: String = "(".to_owned();
        s.append(digit_str(self.occupant.loc.0));
        s.append(", ");
        s.append(digit_str(self.occupant.loc.1));
        s.append(", ");
        match self.occupant.owner {
            Owner::Empty => s.append("empty"),
            Owner::PlayerOne => s.append(player1),
            Owner::PlayerTwo => s.append(player2),
        }
        s.append(")");
        s
    }
}

} // verus!
