//! The 8x8 grid: authoritative square state, jump discovery and
//! mechanical move application.

use vstd::prelude::*;
use vstd::string::{StrSliceExecFns, StringExecFns};

use crate::checkers_piece::{spec_vacant_piece, CheckerPiece};
use crate::errors::SetupError;
use crate::owner::Owner;
use crate::position::{digit_str, spec_digit, spec_owner_name, spec_position_render, Position};

verus! {

/// True when `(r, c)` lies on the 8x8 grid.
pub open spec fn spec_on_board(r: int, c: int) -> bool {
    0 <= r < 8 && 0 <= c < 8
}

/// True when a coordinate pair lies on the 8x8 grid.
pub open spec fn spec_in_range(cord: (usize, usize)) -> bool {
    cord.0 < 8 && cord.1 < 8
}

/// The non-playable color of the checkerboard pattern.
pub open spec fn spec_blocked(r: int, c: int) -> bool {
    (r + c) % 2 == 0
}

/// A square of a freshly initialized board.
pub open spec fn spec_fresh_square(r: int, c: int) -> Position {
    Position {
        owner: Owner::Empty,
        occupant: spec_vacant_piece((r as usize, c as usize)),
        blocked: spec_blocked(r, c),
    }
}

/// What every square of a well-formed board satisfies: the blocked flag
/// follows the checkerboard pattern, the occupant's location tag equals
/// the square's coordinates, blocked squares are never occupied, vacant
/// squares hold the vacant piece value, and every real piece travels in
/// direction +1 or -1.
pub open spec fn spec_wf_square(p: Position, r: int, c: int) -> bool {
    &&& p.blocked == spec_blocked(r, c)
    &&& p.occupant.loc.0 == r && p.occupant.loc.1 == c
    &&& p.blocked ==> p.occupant.owner == Owner::Empty
    &&& p.occupant.owner == Owner::Empty ==> p.occupant == spec_vacant_piece((r as usize, c as usize))
    &&& p.occupant.owner != Owner::Empty ==> (p.occupant.direction == 1 || p.occupant.direction == -1)
}

/// One discovered capture option: the piece at `from` may jump the
/// opponent piece at `captured` and land on the empty square `landing`.
#[derive(Clone, Copy, Debug)]
pub struct Jump {
    pub from: (usize, usize),
    pub captured: (usize, usize),
    pub landing: (usize, usize),
}

/// A piece may travel vertically along `dy`: its own direction, or the
/// opposite one once kinged.
pub open spec fn spec_dir_allowed(p: CheckerPiece, dy: int) -> bool {
    dy == p.direction as int || (p.kinged && dy == -(p.direction as int))
}

/// The vertical offset of a single jump step from `from` to `land`.
pub open spec fn spec_jump_dy(from: (usize, usize), land: (usize, usize)) -> int {
    (land.0 as int - from.0 as int) / 2
}

/// The lateral offset of a single jump step from `from` to `land`.
pub open spec fn spec_jump_dx(from: (usize, usize), land: (usize, usize)) -> int {
    (land.1 as int - from.1 as int) / 2
}

/// The square between `from` and `land`: the piece captured by that jump.
pub open spec fn spec_captured_cord(from: (usize, usize), land: (usize, usize)) -> (usize, usize) {
    (
        ((from.0 as int + spec_jump_dy(from, land)) as usize),
        ((from.1 as int + spec_jump_dx(from, land)) as usize),
    )
}

/// The destination row is the opponent's back rank for this piece, which
/// promotes it to a king.
pub open spec fn spec_promoted(p: CheckerPiece, to: (usize, usize)) -> bool {
    (p.direction == 1 && to.0 == 7) || (p.direction == -1 && to.0 == 0)
}

/// The piece value after relocating `p` onto `to`: the location follows,
/// and the piece is kinged when it reaches the opponent's back rank.
pub open spec fn spec_moved_piece(p: CheckerPiece, to: (usize, usize)) -> CheckerPiece {
    CheckerPiece { kinged: p.kinged || spec_promoted(p, to), loc: to, ..p }
}

/// `(r, c)` is one of the squares rewritten when moving a piece from
/// `from` to `to` and removing `captured`.
pub open spec fn spec_move_touches(
    from: (usize, usize),
    to: (usize, usize),
    captured: Option<(usize, usize)>,
    r: int,
    c: int,
) -> bool {
    ||| (r == from.0 as int && c == from.1 as int)
    ||| (r == to.0 as int && c == to.1 as int)
    ||| (captured matches Some(cc) && r == cc.0 as int && c == cc.1 as int)
}

/// How a move application rewrites the board: the moving piece leaves
/// `from`, lands on `to` (kinged when it reaches the back rank), the
/// captured square (if any) is emptied, and every other square, as well
/// as every side owner and blocked flag, is untouched.
pub open spec fn spec_relocated(
    pre: CheckersBoard,
    post: CheckersBoard,
    from: (usize, usize),
    to: (usize, usize),
    captured: Option<(usize, usize)>,
) -> bool {
    &&& post.spec_dims()
    &&& forall|r: int, c: int|
        spec_on_board(r, c) ==> (#[trigger] post.spec_at(r, c)).owner == pre.spec_at(r, c).owner
            && post.spec_at(r, c).blocked == pre.spec_at(r, c).blocked
    &&& post.spec_piece(to.0 as int, to.1 as int) == spec_moved_piece(
        pre.spec_piece(from.0 as int, from.1 as int),
        to,
    )
    &&& post.spec_piece(from.0 as int, from.1 as int) == spec_vacant_piece(from)
    &&& (captured matches Some(cc) ==> post.spec_piece(cc.0 as int, cc.1 as int)
        == spec_vacant_piece(cc))
    &&& forall|r: int, c: int|
        spec_on_board(r, c) && !spec_move_touches(from, to, captured, r, c)
            ==> #[trigger] post.spec_piece(r, c) == pre.spec_piece(r, c)
}

/// The square at `(r, c)` after a match setup ran over board `b0`:
/// side ownership assigned to the two back ranks, then the starting
/// pieces placed on the playable squares of the six outer rows.
pub open spec fn spec_setup_square(b0: CheckersBoard, r: int, c: int) -> Position {
    let sided = if r == 0 {
        Position { owner: Owner::PlayerOne, ..b0.spec_at(r, c) }
    } else if r == 7 {
        Position { owner: Owner::PlayerTwo, ..b0.spec_at(r, c) }
    } else {
        b0.spec_at(r, c)
    };
    if CheckersBoard::spec_starting_square(r, c) {
        Position { occupant: CheckersBoard::spec_starting_piece(r, c), ..sided }
    } else {
        sided
    }
}

/// The jump record of a step with offsets `(dy, dx)` out of `from`.
pub open spec fn spec_jump_record(from: (usize, usize), dy: int, dx: int) -> Jump {
    Jump {
        from,
        captured: (((from.0 as int + dy) as usize), ((from.1 as int + dx) as usize)),
        landing: (((from.0 as int + 2 * dy) as usize), ((from.1 as int + 2 * dx) as usize)),
    }
}

/// `n` spaces.
pub open spec fn spec_spaces(n: int) -> Seq<char>
    decreases n,
{
    if n <= 0 {
        Seq::empty()
    } else {
        spec_spaces(n - 1) + " "@
    }
}

/// `name` right-aligned to at least five characters.
pub open spec fn spec_pad5(name: Seq<char>) -> Seq<char> {
    if name.len() >= 5 {
        name
    } else {
        spec_spaces(5 - name.len()) + name
    }
}

/// Appends `name`, right-aligned to at least five characters, onto `s`.
fn append_padded(s: &mut String, name: &str)
    ensures
        final(s)@ == old(s)@ + spec_pad5(name@),
{
    let len = name.unicode_len();
    if len < 5 {
        let pad = 5 - len;
        let ghost start = s@;
        for i in 0..pad
            invariant
                s@ == start + spec_spaces(i as int),
        {
            s.append(" ");
            proof {
                assert(s@ =~= start + spec_spaces(i as int + 1));
            }
        }
        s.append(name);
        proof {
            assert(s@ =~= old(s)@ + spec_pad5(name@));
        }
    } else {
        s.append(name);
    }
}

pub struct CheckersBoard {
    /// The 8x8 grid of squares, row-major.
    pub positions: Vec<Vec<Position>>,
}

impl CheckersBoard {
    /// The square at row `r`, column `c`.
    pub open spec fn spec_at(&self, r: int, c: int) -> Position {
        self.positions@[r]@[c]
    }

    /// The occupant of the square at `(r, c)`.
    pub open spec fn spec_piece(&self, r: int, c: int) -> CheckerPiece {
        self.spec_at(r, c).occupant
    }

    /// The owner of the occupant at `(r, c)`.
    pub open spec fn spec_owner_at(&self, r: int, c: int) -> Owner {
        self.spec_piece(r, c).owner
    }

    /// The grid is 8 rows of 8 squares.
    pub open spec fn spec_dims(&self) -> bool {
        &&& self.positions@.len() == 8
        &&& forall|r: int| 0 <= r < 8 ==> (#[trigger] self.positions@[r])@.len() == 8
    }

    /// Well-formedness: correct dimensions and every square consistent
    /// with its coordinates.
    pub open spec fn wf(&self) -> bool {
        &&& self.spec_dims()
        &&& forall|r: int, c: int|
            spec_on_board(r, c) ==> spec_wf_square(#[trigger] self.spec_at(r, c), r, c)
    }

    /// A fresh board: all squares unowned and unoccupied, the blocked
    /// flags following the checkerboard pattern.
    pub fn init() -> (b: CheckersBoard)
        ensures
            b.wf(),
            forall|r: int, c: int|
                spec_on_board(r, c) ==> #[trigger] b.spec_at(r, c) == spec_fresh_square(r, c),
    {
        let mut board: Vec<Vec<Position>> = Vec::new();
        for i in 0..8usize
            invariant
                board@.len() == i,
                forall|r: int| 0 <= r < i ==> (#[trigger] board@[r])@.len() == 8,
                forall|r: int, c: int|
                    0 <= r < i && 0 <= c < 8 ==> (#[trigger] board@[r]@[c]) == spec_fresh_square(
                        r,
                        c,
                    ),
        {
            let mut row: Vec<Position> = Vec::new();
            for j in 0..8usize
                invariant
                    row@.len() == j,
                    i < 8,
                    forall|c: int| 0 <= c < j ==> (#[trigger] row@[c]) == spec_fresh_square(i as int, c),
            {
                let mut pos = Position::init_with_loc((i, j));
                pos.blocked = (i + j) % 2 == 0;
                row.push(pos);
            }
            board.push(row);
        }
        CheckersBoard { positions: board }
    }

    /// The occupant of the square at `cord`.
    pub fn piece_at(&self, cord: (usize, usize)) -> (p: CheckerPiece)
        requires
            self.spec_dims(),
            spec_in_range(cord),
        ensures
            p == self.spec_piece(cord.0 as int, cord.1 as int),
    {
        self.positions[cord.0][cord.1].occupant
    }

    /// Overwrites the occupant of one square, leaving its side owner and
    /// blocked flag alone.
    fn set_occupant(&mut self, cord: (usize, usize), p: CheckerPiece)
        requires
            old(self).spec_dims(),
            spec_in_range(cord),
        ensures
            final(self).spec_dims(),
            forall|r: int, c: int|
                spec_on_board(r, c) && !(r == cord.0 as int && c == cord.1 as int)
                    ==> #[trigger] final(self).spec_at(r, c) == old(self).spec_at(r, c),
            final(self).spec_at(cord.0 as int, cord.1 as int) == (Position {
                occupant: p,
                ..old(self).spec_at(cord.0 as int, cord.1 as int)
            }),
    {
        self.positions[cord.0][cord.1].occupant = p;
    }

    /// Resets the square at `piece_cord` to the unoccupied state,
    /// preserving its fixed location tag.
    pub fn remove_piece(&mut self, piece_cord: (usize, usize))
        requires
            old(self).spec_dims(),
            spec_in_range(piece_cord),
        ensures
            final(self).spec_dims(),
            old(self).wf() ==> final(self).wf(),
            forall|r: int, c: int|
                spec_on_board(r, c) && !(r == piece_cord.0 as int && c == piece_cord.1 as int)
                    ==> #[trigger] final(self).spec_at(r, c) == old(self).spec_at(r, c),
            final(self).spec_at(piece_cord.0 as int, piece_cord.1 as int) == (Position {
                occupant: spec_vacant_piece(piece_cord),
                ..old(self).spec_at(piece_cord.0 as int, piece_cord.1 as int)
            }),
    {
        let vacant = CheckerPiece::init_with_loc(piece_cord);
        self.set_occupant(piece_cord, vacant);
    }

    /// How many of the first `n` squares, in row-major order, hold a
    /// piece of `player`.
    pub open spec fn spec_count_prefix(&self, player: Owner, n: int) -> nat
        decreases n,
    {
        if n <= 0 {
            0
        } else {
            self.spec_count_prefix(player, n - 1) + (if self.spec_owner_at(
                (n - 1) / 8,
                (n - 1) % 8,
            ) == player {
                1nat
            } else {
                0nat
            })
        }
    }

    /// How many squares of the whole board hold a piece of `player`.
    pub open spec fn spec_piece_count(&self, player: Owner) -> nat {
        self.spec_count_prefix(player, 64)
    }

    /// All pieces of `player`, in row-major scan order.
    pub fn get_player_pieces(&self, player: Owner) -> (res: Vec<CheckerPiece>)
        requires
            self.wf(),
        ensures
            res@.len() == self.spec_piece_count(player),
            forall|p: CheckerPiece| #[trigger]
                res@.contains(p) <==> (spec_in_range(p.loc) && self.spec_piece(
                    p.loc.0 as int,
                    p.loc.1 as int,
                ) == p && p.owner == player),
            forall|i: int, j: int|
                0 <= i < j < res@.len() ==> (#[trigger] res@[i]).loc.0 * 8 + res@[i].loc.1 < (
                #[trigger] res@[j]).loc.0 * 8 + res@[j].loc.1,
    {
        let mut res: Vec<CheckerPiece> = Vec::new();
        for idx in 0..64usize
            invariant
                self.wf(),
                res@.len() == self.spec_count_prefix(player, idx as int),
                forall|p: CheckerPiece| #[trigger]
                    res@.contains(p) <==> (spec_in_range(p.loc) && (p.loc.0 * 8 + p.loc.1 < idx)
                        && self.spec_piece(p.loc.0 as int, p.loc.1 as int) == p && p.owner
                        == player),
                forall|k: int| 0 <= k < res@.len() ==> (#[trigger] res@[k]).loc.0 * 8 + res@[k].loc.1
                    < idx,
                forall|i: int, j: int|
                    0 <= i < j < res@.len() ==> (#[trigger] res@[i]).loc.0 * 8 + res@[i].loc.1 < (
                    #[trigger] res@[j]).loc.0 * 8 + res@[j].loc.1,
        {
            let ghost pre = res@;
            let r = idx / 8;
            let c = idx % 8;
            let p = self.piece_at((r, c));
            proof {
                assert(r * 8 + c == idx);
                assert(p.loc == (r, c));
            }
            if p.owner == player {
                res.push(p);
            }
            proof {
                assert forall|q: CheckerPiece| #[trigger]
                    res@.contains(q) implies (spec_in_range(q.loc) && (q.loc.0 * 8 + q.loc.1 < idx
                    + 1) && self.spec_piece(q.loc.0 as int, q.loc.1 as int) == q && q.owner
                    == player) by {
                    let i = choose|i: int| 0 <= i < res@.len() && res@[i] == q;
                    if i < pre.len() {
                        assert(pre[i] == q);
                        assert(pre.contains(q));
                    } else {
                        assert(q == p);
                    }
                }
                assert forall|q: CheckerPiece|
                    (spec_in_range(q.loc) && (q.loc.0 * 8 + q.loc.1 < idx + 1) && self.spec_piece(
                        q.loc.0 as int,
                        q.loc.1 as int,
                    ) == q && q.owner == player) implies #[trigger] res@.contains(q) by {
                    if q.loc.0 * 8 + q.loc.1 == idx {
                        assert(q.loc.0 == r && q.loc.1 == c) by {
                            assert(q.loc.1 < 8 && c < 8);
                        }
                        assert(q == p);
                        assert(res@[res@.len() - 1] == q);
                    } else {
                        assert(pre.contains(q));
                        let i = choose|i: int| 0 <= i < pre.len() && pre[i] == q;
                        assert(res@[i] == q);
                    }
                }
            }
        }
        res
    }

    /// Row 0's side owner (meaningful only for validating the setup).
    pub open spec fn spec_first_row_owner(&self) -> Owner {
        self.spec_at(0, 0).owner
    }

    /// Row 7's side owner.
    pub open spec fn spec_last_row_owner(&self) -> Owner {
        self.spec_at(7, 0).owner
    }

    /// Row `r` has one consistent non-empty side owner.
    pub open spec fn spec_row_owned(&self, r: int) -> bool {
        &&& self.spec_at(r, 0).owner != Owner::Empty
        &&& forall|c: int| 0 <= c < 8 ==> (#[trigger] self.spec_at(r, c)).owner == self.spec_at(
            r,
            0,
        ).owner
    }

    /// Both back ranks have a single consistent non-empty side owner.
    pub open spec fn spec_ownership_ready(&self) -> bool {
        self.spec_row_owned(0) && self.spec_row_owned(7)
    }

    /// Exactly twelve pieces belong to each back rank's side owner.
    pub open spec fn spec_pieces_ready(&self) -> bool {
        &&& self.spec_piece_count(self.spec_first_row_owner()) == 12
        &&& self.spec_piece_count(self.spec_last_row_owner()) == 12
    }

    /// Whether row `r` has a single consistent non-empty side owner.
    fn row_owned(&self, r: usize) -> (res: bool)
        requires
            self.spec_dims(),
            r < 8,
        ensures
            res == self.spec_row_owned(r as int),
    {
        let first = self.positions[r][0].owner;
        if first == Owner::Empty {
            return false;
        }
        for c in 1..8usize
            invariant
                self.spec_dims(),
                r < 8,
                first == self.spec_at(r as int, 0).owner,
                first != Owner::Empty,
                forall|k: int| 0 <= k < c ==> (#[trigger] self.spec_at(r as int, k)).owner == first,
        {
            if self.positions[r][c].owner != first {
                proof {
                    assert(self.spec_at(r as int, c as int).owner != first);
                }
                return false;
            }
        }
        true
    }

    /// Validates that both back ranks carry a consistent side owner.
    pub fn is_board_ownership_ready(&self) -> (res: bool)
        requires
            self.spec_dims(),
        ensures
            res == self.spec_ownership_ready(),
    {
        let check_first_row = self.row_owned(0);
        let check_last_row = self.row_owned(7);
        check_first_row && check_last_row
    }

    /// Validates that each side owns exactly twelve pieces anywhere on
    /// the board.
    pub fn is_board_pieces_ready(&self) -> (res: bool)
        requires
            self.wf(),
        ensures
            res == self.spec_pieces_ready(),
    {
        let first_owner = self.positions[0][0].owner;
        let last_owner = self.positions[7][0].owner;
        let player1_pieces = self.get_player_pieces(first_owner);
        let player2_pieces = self.get_player_pieces(last_owner);
        if player1_pieces.len() != 12 || player2_pieces.len() != 12 {
            return false;
        }
        true
    }

    /// Overwrites the side owner of one square, leaving its occupant and
    /// blocked flag alone.
    fn set_side_owner(&mut self, cord: (usize, usize), owner: Owner)
        requires
            old(self).spec_dims(),
            spec_in_range(cord),
        ensures
            final(self).spec_dims(),
            forall|r: int, c: int|
                spec_on_board(r, c) && !(r == cord.0 as int && c == cord.1 as int)
                    ==> #[trigger] final(self).spec_at(r, c) == old(self).spec_at(r, c),
            final(self).spec_at(cord.0 as int, cord.1 as int) == (Position {
                owner,
                ..old(self).spec_at(cord.0 as int, cord.1 as int)
            }),
    {
        self.positions[cord.0][cord.1].owner = owner;
    }

    /// Assigns side ownership of every square in row `side` to `owner`.
    /// Rows outside the board are left untouched.
    pub fn assign_side(&mut self, side: usize, owner: Owner)
        requires
            old(self).spec_dims(),
        ensures
            final(self).spec_dims(),
            old(self).wf() ==> final(self).wf(),
            forall|r: int, c: int|
                spec_on_board(r, c) && r != side as int ==> #[trigger] final(self).spec_at(r, c)
                    == old(self).spec_at(r, c),
            side < 8 ==> forall|c: int|
                0 <= c < 8 ==> #[trigger] final(self).spec_at(side as int, c) == (Position {
                    owner,
                    ..old(self).spec_at(side as int, c)
                }),
    {
        if side >= 8 {
            return ;
        }
        for c in 0..8usize
            invariant
                self.spec_dims(),
                side < 8,
                forall|r: int, cc: int|
                    spec_on_board(r, cc) && r != side as int ==> #[trigger] self.spec_at(r, cc)
                        == old(self).spec_at(r, cc),
                forall|cc: int|
                    0 <= cc < c ==> #[trigger] self.spec_at(side as int, cc) == (Position {
                        owner,
                        ..old(self).spec_at(side as int, cc)
                    }),
                forall|cc: int|
                    c <= cc < 8 ==> #[trigger] self.spec_at(side as int, cc) == old(self).spec_at(
                        side as int,
                        cc,
                    ),
        {
            self.set_side_owner((side, c), owner);
        }
    }

    /// The owner a freshly initialized game places on the playable square
    /// `(r, c)`: the first player on rows 0 to 2, the second on rows 5 to
    /// 7, nobody elsewhere.
    pub open spec fn spec_starting_owner(r: int) -> Owner {
        if r == 0 || r == 1 || r == 2 {
            Owner::PlayerOne
        } else if r == 5 || r == 6 || r == 7 {
            Owner::PlayerTwo
        } else {
            Owner::Empty
        }
    }

    /// Whether `initialize_board_pieces` writes a starting piece onto
    /// `(r, c)`.
    pub open spec fn spec_starting_square(r: int, c: int) -> bool {
        !spec_blocked(r, c) && Self::spec_starting_owner(r) != Owner::Empty
    }

    /// The starting piece written onto `(r, c)`.
    pub open spec fn spec_starting_piece(r: int, c: int) -> CheckerPiece {
        CheckerPiece {
            kinged: false,
            owner: Self::spec_starting_owner(r),
            direction: if r <= 2 {
                1i32
            } else {
                -1i32
            },
            loc: (r as usize, c as usize),
        }
    }

    /// Populates the starting pieces: twelve per side on the playable
    /// squares of rows 0 to 2 and 5 to 7, travelling towards each other.
    /// Side ownership must already be assigned to both back ranks, which
    /// is reported as a structured error otherwise.  Squares outside the
    /// starting rows are left as they are.
    pub fn initialize_board_pieces(&mut self) -> (res: Result<(), SetupError>)
        requires
            old(self).wf(),
        ensures
            final(self).wf(),
            (res is Ok) == old(self).spec_ownership_ready(),
            res is Err ==> res == Result::<(), SetupError>::Err(SetupError::OwnershipNotReady)
                && *final(self) == *old(self),
            res is Ok ==> forall|r: int, c: int|
                spec_on_board(r, c) ==> #[trigger] final(self).spec_at(r, c) == (
                if Self::spec_starting_square(r, c) {
                    Position { occupant: Self::spec_starting_piece(r, c), ..old(self).spec_at(r, c) }
                } else {
                    old(self).spec_at(r, c)
                }),
    {
        if !self.is_board_ownership_ready() {
            return Err(SetupError::OwnershipNotReady);
        }
        for r in 0..8usize
            invariant
                self.wf(),
                forall|rr: int, cc: int|
                    spec_on_board(rr, cc) && rr >= r ==> #[trigger] self.spec_at(rr, cc) == old(
                        self,
                    ).spec_at(rr, cc),
                forall|rr: int, cc: int|
                    spec_on_board(rr, cc) && rr < r ==> #[trigger] self.spec_at(rr, cc) == (
                    if Self::spec_starting_square(rr, cc) {
                        Position {
                            occupant: Self::spec_starting_piece(rr, cc),
                            ..old(self).spec_at(rr, cc)
                        }
                    } else {
                        old(self).spec_at(rr, cc)
                    }),
        {
            let owner = if r <= 2 {
                Owner::PlayerOne
            } else if r >= 5 {
                Owner::PlayerTwo
            } else {
                Owner::Empty
            };
            let direction: i32 = if r <= 2 {
                1
            } else {
                -1
            };
            for c in 0..8usize
                invariant
                    self.wf(),
                    r < 8,
                    owner == Self::spec_starting_owner(r as int),
                    r <= 2 ==> direction == 1,
                    r > 2 ==> direction == -1,
                    forall|rr: int, cc: int|
                        spec_on_board(rr, cc) && (rr > r || (rr == r && cc >= c)) ==> #[trigger] self.spec_at(
                            rr,
                            cc,
                        ) == old(self).spec_at(rr, cc),
                    forall|rr: int, cc: int|
                        spec_on_board(rr, cc) && (rr < r || (rr == r && cc < c)) ==> #[trigger] self.spec_at(
                            rr,
                            cc,
                        ) == (if Self::spec_starting_square(rr, cc) {
                            Position {
                                occupant: Self::spec_starting_piece(rr, cc),
                                ..old(self).spec_at(rr, cc)
                            }
                        } else {
                            old(self).spec_at(rr, cc)
                        }),
            {
                if owner != Owner::Empty && (r + c) % 2 == 1 {
                    let piece = CheckerPiece { kinged: false, owner, direction, loc: (r, c) };
                    self.set_occupant((r, c), piece);
                }
            }
        }
        Ok(())
    }

    /// The two squares a jump step passes over are on the board, the
    /// nearer one holds an opponent of `owner`, and the farther one is
    /// empty.
    pub open spec fn spec_jump_cells_ok(
        &self,
        from: (usize, usize),
        dy: int,
        dx: int,
        owner: Owner,
    ) -> bool {
        let fr = from.0 as int;
        let fc = from.1 as int;
        &&& spec_on_board(fr + dy, fc + dx)
        &&& spec_on_board(fr + 2 * dy, fc + 2 * dx)
        &&& self.spec_owner_at(fr + dy, fc + dx) != Owner::Empty
        &&& self.spec_owner_at(fr + dy, fc + dx) != owner
        &&& self.spec_owner_at(fr + 2 * dy, fc + 2 * dx) == Owner::Empty
    }

    /// The piece at `from` has an available jump with offsets `(dy, dx)`.
    pub open spec fn spec_jump_step(&self, from: (usize, usize), dy: int, dx: int) -> bool {
        let p = self.spec_piece(from.0 as int, from.1 as int);
        &&& spec_in_range(from)
        &&& p.owner != Owner::Empty
        &&& spec_dir_allowed(p, dy)
        &&& (dx == 1 || dx == -1)
        &&& self.spec_jump_cells_ok(from, dy, dx, p.owner)
    }

    /// The piece at `from` has at least one available jump.
    pub open spec fn spec_has_jump(&self, from: (usize, usize)) -> bool {
        let d = self.spec_piece(from.0 as int, from.1 as int).direction as int;
        ||| self.spec_jump_step(from, d, 1)
        ||| self.spec_jump_step(from, d, -1)
        ||| self.spec_jump_step(from, -d, 1)
        ||| self.spec_jump_step(from, -d, -1)
    }

    /// The piece at `from` may jump to the landing square `land`.
    pub open spec fn spec_jump_to(&self, from: (usize, usize), land: (usize, usize)) -> bool {
        let dy = spec_jump_dy(from, land);
        let dx = spec_jump_dx(from, land);
        &&& land.0 as int == from.0 as int + 2 * dy
        &&& land.1 as int == from.1 as int + 2 * dx
        &&& self.spec_jump_step(from, dy, dx)
    }

    /// `j` is an available jump of a piece of `player`.
    pub open spec fn spec_player_jump(&self, player: Owner, j: Jump) -> bool {
        &&& spec_in_range(j.from)
        &&& self.spec_owner_at(j.from.0 as int, j.from.1 as int) == player
        &&& self.spec_jump_to(j.from, j.landing)
        &&& j.captured == spec_captured_cord(j.from, j.landing)
    }

    /// Checks whether the piece of `piece_owner` at `piece_loc` can jump
    /// with vertical step `piece_direction` and lateral step
    /// `position_direction`; returns the captured and landing coordinates
    /// of the jump if so.
    pub fn check_if_move_is(
        &self,
        position_direction: i32,
        piece_loc: (usize, usize),
        piece_direction: i32,
        piece_owner: Owner,
    ) -> (res: Option<((usize, usize), (usize, usize))>)
        requires
            self.spec_dims(),
            spec_in_range(piece_loc),
            piece_direction == 1 || piece_direction == -1,
            position_direction == 1 || position_direction == -1,
        ensures
            (res is Some) == self.spec_jump_cells_ok(
                piece_loc,
                piece_direction as int,
                position_direction as int,
                piece_owner,
            ),
            res matches Some(v) ==> {
                &&& v.0.0 as int == piece_loc.0 as int + piece_direction as int
                &&& v.0.1 as int == piece_loc.1 as int + position_direction as int
                &&& v.1.0 as int == piece_loc.0 as int + 2 * (piece_direction as int)
                &&& v.1.1 as int == piece_loc.1 as int + 2 * (position_direction as int)
            },
    {
        let max_cord = self.get_board_max_cord();
        let jp_y = piece_loc.0 as i32 + piece_direction;
        let jp_x = piece_loc.1 as i32 + position_direction;
        let jlp_y = piece_loc.0 as i32 + 2 * piece_direction;
        let jlp_x = piece_loc.1 as i32 + 2 * position_direction;
        if jp_y < 0 || jp_y > max_cord || jp_x < 0 || jp_x > max_cord || jlp_y < 0 || jlp_y
            > max_cord || jlp_x < 0 || jlp_x > max_cord {
            return None;
        }
        let jump_cord = (jp_y as usize, jp_x as usize);
        let jump_landing_cord = (jlp_y as usize, jlp_x as usize);
        let jump_pos = self.piece_at(jump_cord);
        let jump_landing_pos = self.piece_at(jump_landing_cord);
        if jump_pos.owner != Owner::Empty && jump_pos.owner != piece_owner
            && jump_landing_pos.owner == Owner::Empty {
            Some((jump_cord, jump_landing_cord))
        } else {
            None
        }
    }

    /// A jump step whose cells check out is an available jump of the
    /// piece standing at its source square.
    proof fn lemma_record_is_jump(&self, piece: CheckerPiece, dy: int, dx: int)
        requires
            self.wf(),
            spec_in_range(piece.loc),
            self.spec_piece(piece.loc.0 as int, piece.loc.1 as int) == piece,
            piece.owner != Owner::Empty,
            spec_dir_allowed(piece, dy),
            dy == 1 || dy == -1,
            dx == 1 || dx == -1,
            self.spec_jump_cells_ok(piece.loc, dy, dx, piece.owner),
        ensures
            self.spec_player_jump(piece.owner, spec_jump_record(piece.loc, dy, dx)),
    {
        let j = spec_jump_record(piece.loc, dy, dx);
        assert(j.landing.0 as int == piece.loc.0 as int + 2 * dy);
        assert(j.landing.1 as int == piece.loc.1 as int + 2 * dx);
        assert(spec_jump_dy(j.from, j.landing) == dy);
        assert(spec_jump_dx(j.from, j.landing) == dx);
    }

    /// Conversely, an available jump of the piece at its source square is
    /// the record of its own offsets, and those offsets check out.
    pub(crate) proof fn lemma_jump_is_record(&self, piece: CheckerPiece, j: Jump)
        requires
            self.wf(),
            spec_in_range(j.from),
            self.spec_piece(j.from.0 as int, j.from.1 as int) == piece,
            self.spec_player_jump(piece.owner, j),
        ensures
            j == spec_jump_record(j.from, spec_jump_dy(j.from, j.landing), spec_jump_dx(j.from, j.landing)),
            spec_dir_allowed(piece, spec_jump_dy(j.from, j.landing)),
            spec_jump_dy(j.from, j.landing) == piece.direction as int || spec_jump_dy(
                j.from,
                j.landing,
            ) == -(piece.direction as int),
            spec_jump_dx(j.from, j.landing) == 1 || spec_jump_dx(j.from, j.landing) == -1,
            self.spec_jump_cells_ok(
                j.from,
                spec_jump_dy(j.from, j.landing),
                spec_jump_dx(j.from, j.landing),
                piece.owner,
            ),
    {
        let dy = spec_jump_dy(j.from, j.landing);
        let dx = spec_jump_dx(j.from, j.landing);
        assert(self.spec_jump_step(j.from, dy, dx));
        assert(spec_on_board(j.from.0 as int + dy, j.from.1 as int + dx));
        assert(j.captured == spec_captured_cord(j.from, j.landing));
    }

    /// Pushes the jump record of the step `(dy, dx)` out of `loc` onto
    /// `res` when its cells check out, and nothing otherwise.
    fn try_jump(&self, loc: (usize, usize), dy: i32, dx: i32, owner: Owner, res: &mut Vec<Jump>)
        requires
            self.spec_dims(),
            spec_in_range(loc),
            dy == 1 || dy == -1,
            dx == 1 || dx == -1,
        ensures
            forall|j: Jump| #[trigger]
                final(res)@.contains(j) <==> (old(res)@.contains(j) || (self.spec_jump_cells_ok(
                    loc,
                    dy as int,
                    dx as int,
                    owner,
                ) && j == spec_jump_record(loc, dy as int, dx as int))),
    {
        if let Some((cap, land)) = self.check_if_move_is(dx, loc, dy, owner) {
            let j = Jump { from: loc, captured: cap, landing: land };
            proof {
                assert(j == spec_jump_record(loc, dy as int, dx as int));
            }
            res.push(j);
            proof {
                assert forall|q: Jump| #[trigger]
                    res@.contains(q) implies (old(res)@.contains(q) || q == j) by {
                    let i = choose|i: int| 0 <= i < res@.len() && res@[i] == q;
                    if i < old(res)@.len() {
                        assert(old(res)@[i] == q);
                    }
                }
                assert forall|q: Jump|
                    (old(res)@.contains(q) || q == j) implies #[trigger] res@.contains(q) by {
                    if old(res)@.contains(q) {
                        let i = choose|i: int| 0 <= i < old(res)@.len() && old(res)@[i] == q;
                        assert(res@[i] == q);
                    } else {
                        assert(res@[res@.len() - 1] == q);
                    }
                }
            }
        }
    }

    /// Collects every available jump of the given piece into `res`.
    fn piece_jumps(&self, piece: CheckerPiece, res: &mut Vec<Jump>)
        requires
            self.wf(),
            spec_in_range(piece.loc),
            self.spec_piece(piece.loc.0 as int, piece.loc.1 as int) == piece,
            piece.owner != Owner::Empty,
        ensures
            forall|j: Jump| #[trigger]
                final(res)@.contains(j) <==> (old(res)@.contains(j) || (j.from == piece.loc
                    && self.spec_player_jump(piece.owner, j))),
    {
        let loc = piece.loc;
        let dir = piece.direction;
        let ghost base = res@;
        proof {
            assert(dir == 1 || dir == -1);
        }
        self.try_jump(loc, dir, -1, piece.owner, res);
        if piece.kinged {
            self.try_jump(loc, -dir, -1, piece.owner, res);
        }
        self.try_jump(loc, dir, 1, piece.owner, res);
        if piece.kinged {
            self.try_jump(loc, -dir, 1, piece.owner, res);
        }
        proof {
            assert forall|j: Jump| #[trigger]
                res@.contains(j) implies (base.contains(j) || (j.from == piece.loc
                && self.spec_player_jump(piece.owner, j))) by {
                if !base.contains(j) {
                    if self.spec_jump_cells_ok(loc, dir as int, -1, piece.owner) && j
                        == spec_jump_record(loc, dir as int, -1) {
                        self.lemma_record_is_jump(piece, dir as int, -1);
                    } else if piece.kinged && self.spec_jump_cells_ok(
                        loc,
                        -(dir as int),
                        -1,
                        piece.owner,
                    ) && j == spec_jump_record(loc, -(dir as int), -1) {
                        self.lemma_record_is_jump(piece, -(dir as int), -1);
                    } else if self.spec_jump_cells_ok(loc, dir as int, 1, piece.owner) && j
                        == spec_jump_record(loc, dir as int, 1) {
                        self.lemma_record_is_jump(piece, dir as int, 1);
                    } else if piece.kinged && self.spec_jump_cells_ok(
                        loc,
                        -(dir as int),
                        1,
                        piece.owner,
                    ) && j == spec_jump_record(loc, -(dir as int), 1) {
                        self.lemma_record_is_jump(piece, -(dir as int), 1);
                    }
                }
            }
            assert forall|j: Jump|
                (base.contains(j) || (j.from == piece.loc && self.spec_player_jump(
                    piece.owner,
                    j,
                ))) implies #[trigger] res@.contains(j) by {
                if !base.contains(j) {
                    self.lemma_jump_is_record(piece, j);
                }
            }
        }
    }

    /// Collects every available jump of every piece of `player`, scanning
    /// the pieces in row-major order.  The result holds exactly the jumps
    /// currently open to `player`.
    pub fn find_available_jumps(&self, player: Owner) -> (res: Vec<Jump>)
        requires
            self.wf(),
        ensures
            forall|j: Jump| #[trigger] res@.contains(j) <==> self.spec_player_jump(player, j),
    {
        let player_pieces = self.get_player_pieces(player);
        let mut res: Vec<Jump> = Vec::new();
        for i in 0..player_pieces.len()
            invariant
                self.wf(),
                player_pieces@.len() == self.spec_piece_count(player),
                forall|p: CheckerPiece| #[trigger]
                    player_pieces@.contains(p) <==> (spec_in_range(p.loc) && self.spec_piece(
                        p.loc.0 as int,
                        p.loc.1 as int,
                    ) == p && p.owner == player),
                forall|j: Jump| #[trigger] res@.contains(j) ==> self.spec_player_jump(player, j),
                forall|k: int, j: Jump|
                    #![trigger player_pieces@[k], res@.contains(j)]
                    0 <= k < i && j.from == player_pieces@[k].loc && self.spec_player_jump(
                        player,
                        j,
                    ) ==> res@.contains(j),
        {
            let piece = player_pieces[i];
            proof {
                assert(player_pieces@.contains(player_pieces@[i as int]));
            }
            if piece.owner != Owner::Empty {
                self.piece_jumps(piece, &mut res);
            }
        }
        proof {
            assert forall|j: Jump| self.spec_player_jump(player, j) implies #[trigger]
                res@.contains(j) by {
                let p = self.spec_piece(j.from.0 as int, j.from.1 as int);
                assert(player_pieces@.contains(p));
                let k = choose|k: int|
                    0 <= k < player_pieces@.len() && player_pieces@[k] == p;
                assert(p.loc == j.from);
            }
        }
        res
    }

    /// Ties the contents of a discovered-jump list to the four possible
    /// jump steps of the piece standing at `from`.
    pub(crate) proof fn lemma_jumps_from(&self, player: Owner, jumps: Seq<Jump>, from: (usize, usize))
        requires
            self.wf(),
            spec_in_range(from),
            forall|j: Jump| #[trigger] jumps.contains(j) <==> self.spec_player_jump(player, j),
        ensures
            (exists|i: int| 0 <= i < jumps.len() && (#[trigger] jumps[i]).from == from) <==> (
            self.spec_has_jump(from) && self.spec_owner_at(from.0 as int, from.1 as int) == player),
    {
        let p = self.spec_piece(from.0 as int, from.1 as int);
        let d = p.direction as int;
        if exists|i: int| 0 <= i < jumps.len() && (#[trigger] jumps[i]).from == from {
            let i = choose|i: int| 0 <= i < jumps.len() && (#[trigger] jumps[i]).from == from;
            let j = jumps[i];
            assert(jumps.contains(j));
            self.lemma_jump_is_record(p, j);
        }
        if self.spec_has_jump(from) && self.spec_owner_at(from.0 as int, from.1 as int) == player {
            if self.spec_jump_step(from, d, 1) {
                self.witness_jump(p, jumps, d, 1);
            } else if self.spec_jump_step(from, d, -1) {
                self.witness_jump(p, jumps, d, -1);
            } else if self.spec_jump_step(from, -d, 1) {
                self.witness_jump(p, jumps, -d, 1);
            } else {
                self.witness_jump(p, jumps, -d, -1);
            }
        }
    }

    /// Exhibits the list entry recording the jump step `(dy, dx)` of `piece`.
    proof fn witness_jump(&self, piece: CheckerPiece, jumps: Seq<Jump>, dy: int, dx: int)
        requires
            self.wf(),
            spec_in_range(piece.loc),
            self.spec_piece(piece.loc.0 as int, piece.loc.1 as int) == piece,
            self.spec_jump_step(piece.loc, dy, dx),
            forall|j: Jump| #[trigger] jumps.contains(j) <==> self.spec_player_jump(piece.owner, j),
        ensures
            exists|i: int| 0 <= i < jumps.len() && (#[trigger] jumps[i]).from == piece.loc,
    {
        self.lemma_record_is_jump(piece, dy, dx);
        let j = spec_jump_record(piece.loc, dy, dx);
        assert(jumps.contains(j));
        let i = choose|i: int| 0 <= i < jumps.len() && jumps[i] == j;
        assert((jumps[i]).from == piece.loc);
    }

    /// Ties membership of a `(from, to)` pair in a discovered-jump list
    /// to the jump-to predicate.
    pub(crate) proof fn lemma_jumps_to(&self, player: Owner, jumps: Seq<Jump>, from: (usize, usize), to: (usize, usize))
        requires
            self.wf(),
            spec_in_range(from),
            forall|j: Jump| #[trigger] jumps.contains(j) <==> self.spec_player_jump(player, j),
        ensures
            (exists|i: int|
                0 <= i < jumps.len() && (#[trigger] jumps[i]).from == from && jumps[i].landing
                    == to) <==> (self.spec_jump_to(from, to) && self.spec_owner_at(
                from.0 as int,
                from.1 as int,
            ) == player),
    {
        if exists|i: int|
            0 <= i < jumps.len() && (#[trigger] jumps[i]).from == from && jumps[i].landing == to {
            let i = choose|i: int|
                0 <= i < jumps.len() && (#[trigger] jumps[i]).from == from && jumps[i].landing
                    == to;
            assert(jumps.contains(jumps[i]));
        }
        if self.spec_jump_to(from, to) && self.spec_owner_at(from.0 as int, from.1 as int)
            == player {
            let j = Jump { from, captured: spec_captured_cord(from, to), landing: to };
            assert(self.spec_player_jump(player, j));
            assert(jumps.contains(j));
            let i = choose|i: int| 0 <= i < jumps.len() && jumps[i] == j;
            assert((jumps[i]).from == from && jumps[i].landing == to);
        }
    }

    /// Whether `to` lies one diagonal step forward of the piece at
    /// `from`, onto an empty square.
    pub open spec fn spec_advance_ok(&self, from: (usize, usize), to: (usize, usize)) -> bool {
        let p = self.spec_piece(from.0 as int, from.1 as int);
        &&& to.0 as int == from.0 as int + p.direction as int
        &&& (to.1 as int == from.1 as int + 1 || from.1 as int == to.1 as int + 1)
        &&& self.spec_owner_at(to.0 as int, to.1 as int) == Owner::Empty
    }

    /// The board-level legality of moving the piece at `from` to `to` on
    /// behalf of `player`: coordinates on the board, the piece owned by
    /// `player`, and either a discovered jump to `to`, or — only when the
    /// piece has no jump available — a plain diagonal advance.
    pub open spec fn spec_board_move_legal(
        &self,
        player: Owner,
        from: (usize, usize),
        to: (usize, usize),
    ) -> bool {
        &&& player != Owner::Empty
        &&& spec_in_range(from)
        &&& spec_in_range(to)
        &&& self.spec_owner_at(from.0 as int, from.1 as int) == player
        &&& if self.spec_has_jump(from) {
            self.spec_jump_to(from, to)
        } else {
            self.spec_advance_ok(from, to)
        }
    }

    /// The square emptied by a legal move from `from` to `to`: the jumped
    /// piece when the move is a capture, nothing for a plain advance.
    pub open spec fn spec_move_capture(&self, from: (usize, usize), to: (usize, usize)) -> Option<
        (usize, usize),
    > {
        if self.spec_has_jump(from) {
            Some(spec_captured_cord(from, to))
        } else {
            None
        }
    }

    /// Relocates the piece at `from` onto `to`, promoting it on the back
    /// rank, and empties `from` and the captured square.
    pub(crate) fn apply_relocation(
        &mut self,
        from: (usize, usize),
        to: (usize, usize),
        captured: Option<(usize, usize)>,
    )
        requires
            old(self).wf(),
            spec_in_range(from),
            spec_in_range(to),
            from != to,
            !spec_blocked(to.0 as int, to.1 as int),
            old(self).spec_owner_at(from.0 as int, from.1 as int) != Owner::Empty,
            captured matches Some(cc) ==> spec_in_range(cc) && cc != to && cc != from,
        ensures
            final(self).wf(),
            spec_relocated(*old(self), *final(self), from, to, captured),
    {
        let mut moving = self.piece_at(from);
        moving.loc = to;
        if (moving.direction == 1 && to.0 == 7) || (moving.direction == -1 && to.0 == 0) {
            moving.kinged = true;
        }
        self.set_occupant(to, moving);
        self.remove_piece(from);
        if let Some(cc) = captured {
            self.remove_piece(cc);
        }
    }

    /// Validates a submitted move of `player`'s piece at `piece_cord`
    /// towards `dest_cord` and applies it when legal: a discovered jump
    /// when the piece has one (captures are mandatory for a piece that
    /// can capture), a plain diagonal advance otherwise.  Returns whether
    /// the move was applied; a rejected move leaves the board untouched.
    pub fn move_piece(
        &mut self,
        player: Owner,
        piece_cord: (usize, usize),
        dest_cord: (usize, usize),
    ) -> (res: bool)
        requires
            old(self).wf(),
        ensures
            final(self).wf(),
            res == old(self).spec_board_move_legal(player, piece_cord, dest_cord),
            !res ==> *final(self) == *old(self),
            res ==> spec_relocated(
                *old(self),
                *final(self),
                piece_cord,
                dest_cord,
                old(self).spec_move_capture(piece_cord, dest_cord),
            ),
    {
        if piece_cord.0 >= 8 || piece_cord.1 >= 8 || dest_cord.0 >= 8 || dest_cord.1 >= 8 {
            return false;
        }
        if player == Owner::Empty {
            return false;
        }
        let selected_piece = self.piece_at(piece_cord);
        if selected_piece.owner != player {
            return false;
        }
        let all_jumps = self.find_available_jumps(player);
        proof {
            self.lemma_jumps_from(player, all_jumps@, piece_cord);
            self.lemma_jumps_to(player, all_jumps@, piece_cord, dest_cord);
        }
        if jumps_contain_from(&all_jumps, piece_cord) {
            match find_jump_to(&all_jumps, piece_cord, dest_cord) {
                Some(j) => {
                    proof {
                        assert(self.spec_player_jump(player, j));
                        self.lemma_jump_is_record(selected_piece, j);
                    }
                    self.apply_relocation(piece_cord, dest_cord, Some(j.captured));
                    true
                },
                None => false,
            }
        } else {
            let dir = selected_piece.direction;
            let row_ok = if dir < 0 && piece_cord.0 == 0 {
                false
            } else {
                crate::utils::add(piece_cord.0, dir) == dest_cord.0
            };
            let col_ok = piece_cord.1 + 1 == dest_cord.1 || dest_cord.1 + 1 == piece_cord.1;
            let dest_piece = self.piece_at(dest_cord);
            if row_ok && col_ok && dest_piece.owner == Owner::Empty {
                self.apply_relocation(piece_cord, dest_cord, None);
                true
            } else {
                false
            }
        }
    }

    /// The square at `cord`, as a value.
    fn position_at(&self, cord: (usize, usize)) -> (p: Position)
        requires
            self.spec_dims(),
            spec_in_range(cord),
        ensures
            p == self.spec_at(cord.0 as int, cord.1 as int),
    {
        self.positions[cord.0][cord.1]
    }

    /// The largest coordinate of the grid.
    fn get_board_max_cord(&self) -> (r: i32)
        requires
            self.spec_dims(),
        ensures
            r == 7,
    {
        (self.positions.len() - 1) as i32
    }

    /// The first `n` cells of row `r` in compact form, joined by commas.
    pub open spec fn spec_row_prefix(&self, r: int, n: int, p1: Seq<char>, p2: Seq<char>) -> Seq<
        char,
    >
        decreases n,
    {
        if n <= 0 {
            Seq::empty()
        } else if n == 1 {
            spec_position_render(self.spec_at(r, 0), p1, p2)
        } else {
            self.spec_row_prefix(r, n - 1, p1, p2) + ", "@ + spec_position_render(
                self.spec_at(r, n - 1),
                p1,
                p2,
            )
        }
    }

    /// The first `n` rows in compact form: each bracketed, joined by
    /// commas.
    pub open spec fn spec_rows_prefix(&self, n: int, p1: Seq<char>, p2: Seq<char>) -> Seq<char>
        decreases n,
    {
        if n <= 0 {
            Seq::empty()
        } else if n == 1 {
            "["@ + self.spec_row_prefix(0, 8, p1, p2) + "]"@
        } else {
            self.spec_rows_prefix(n - 1, p1, p2) + ",["@ + self.spec_row_prefix(n - 1, 8, p1, p2)
                + "]"@
        }
    }

    /// The compact machine-readable board: nested bracketed per-row
    /// lists of `(row, col, owner)` triples.
    pub open spec fn spec_compact_render(&self, p1: Seq<char>, p2: Seq<char>) -> Seq<char> {
        "["@ + self.spec_rows_prefix(8, p1, p2) + "]"@
    }

    /// Renders the board in its compact machine-readable form, with the
    /// given player names standing in for the owner identifiers.
    pub fn get_board_as_string(&self, player1: &str, player2: &str) -> (res: String)
        requires
            self.wf(),
        ensures
            res@ == self.spec_compact_render(player1@, player2@),
    {
        let mut s: String = "[".to_owned();
        for r in 0..8usize
            invariant
                self.wf(),
                s@ == "["@ + self.spec_rows_prefix(r as int, player1@, player2@),
        {
            if r > 0 {
                s.append(",[");
            } else {
                s.append("[");
            }
            let ghost row_start = s@;
            for c in 0..8usize
                invariant
                    self.wf(),
                    r < 8,
                    s@ == row_start + self.spec_row_prefix(r as int, c as int, player1@, player2@),
            {
                if c > 0 {
                    s.append(", ");
                }
                let pos = self.position_at((r, c));
                let cell = pos.to_string(player1, player2);
                s.append(cell.as_str());
                proof {
                    assert(s@ =~= row_start + self.spec_row_prefix(
                        r as int,
                        c as int + 1,
                        player1@,
                        player2@,
                    ));
                }
            }
            s.append("]");
            proof {
                assert(s@ =~= "["@ + self.spec_rows_prefix(r as int + 1, player1@, player2@));
            }
        }
        s.append("]");
        proof {
            assert(s@ =~= self.spec_compact_render(player1@, player2@));
        }
        s
    }

    /// One cell of the human-readable grid: the coordinates, then
    /// dashes for a blocked square or the padded owner name.
    pub open spec fn spec_cell_render(&self, r: int, c: int, p1: Seq<char>, p2: Seq<char>) -> Seq<
        char,
    > {
        let p = self.spec_at(r, c);
        let head = " ("@ + spec_digit(p.occupant.loc.0 as int) + ", "@ + spec_digit(
            p.occupant.loc.1 as int,
        ) + ") "@;
        if p.blocked {
            head + "----- "@
        } else {
            head + spec_pad5(spec_owner_name(p.occupant.owner, p1, p2)) + " "@
        }
    }

    /// The first `n` cells of grid row `r`, separated by bars.
    pub open spec fn spec_grid_row_prefix(&self, r: int, n: int, p1: Seq<char>, p2: Seq<char>) -> Seq<
        char,
    >
        decreases n,
    {
        if n <= 0 {
            Seq::empty()
        } else if n == 1 {
            self.spec_cell_render(r, 0, p1, p2)
        } else {
            self.spec_grid_row_prefix(r, n - 1, p1, p2) + "|"@ + self.spec_cell_render(
                r,
                n - 1,
                p1,
                p2,
            )
        }
    }

    /// The first `n` grid rows, each bracketed on its own line.
    pub open spec fn spec_grid_prefix(&self, n: int, p1: Seq<char>, p2: Seq<char>) -> Seq<char>
        decreases n,
    {
        if n <= 0 {
            Seq::empty()
        } else {
            self.spec_grid_prefix(n - 1, p1, p2) + "["@ + self.spec_grid_row_prefix(
                n - 1,
                8,
                p1,
                p2,
            ) + "]\n"@
        }
    }

    /// The human-readable grid: eight bracketed lines of bar-separated
    /// cells.
    pub open spec fn spec_grid_render(&self, p1: Seq<char>, p2: Seq<char>) -> Seq<char> {
        self.spec_grid_prefix(8, p1, p2)
    }

    /// Appends one grid cell to `s`.
    fn append_cell(&self, s: &mut String, r: usize, c: usize, player1: &str, player2: &str)
        requires
            self.wf(),
            r < 8,
            c < 8,
        ensures
            final(s)@ == old(s)@ + self.spec_cell_render(r as int, c as int, player1@, player2@),
    {
        let pos = self.position_at((r, c));
        s.append(" (");
        s.append(digit_str(pos.occupant.loc.0));
        s.append(", ");
        s.append(digit_str(pos.occupant.loc.1));
        s.append(") ");
        if pos.blocked {
            s.append("----- ");
        } else {
            match pos.occupant.owner {
                Owner::Empty => append_padded(s, "empty"),
                Owner::PlayerOne => append_padded(s, player1),
                Owner::PlayerTwo => append_padded(s, player2),
            }
            s.append(" ");
        }
        proof {
            assert(s@ =~= old(s)@ + self.spec_cell_render(
                r as int,
                c as int,
                player1@,
                player2@,
            ));
        }
    }

    /// Renders the board as a human-readable grid, with the given player
    /// names standing in for the owner identifiers.
    pub fn to_string(&self, player1: &str, player2: &str) -> (res: String)
        requires
            self.wf(),
        ensures
            res@ == self.spec_grid_render(player1@, player2@),
    {
        let mut s: String = String::new();
        for r in 0..8usize
            invariant
                self.wf(),
                s@ == self.spec_grid_prefix(r as int, player1@, player2@),
        {
            s.append("[");
            let ghost row_start = s@;
            for c in 0..8usize
                invariant
                    self.wf(),
                    r < 8,
                    s@ == row_start + self.spec_grid_row_prefix(
                        r as int,
                        c as int,
                        player1@,
                        player2@,
                    ),
            {
                if c > 0 {
                    s.append("|");
                }
                self.append_cell(&mut s, r, c, player1, player2);
                proof {
                    assert(s@ =~= row_start + self.spec_grid_row_prefix(
                        r as int,
                        c as int + 1,
                        player1@,
                        player2@,
                    ));
                }
            }
            s.append("]\n");
            proof {
                assert(s@ =~= self.spec_grid_prefix(r as int + 1, player1@, player2@));
            }
        }
        s
    }

    /// Puts a piece of `owner` on the square at `cord`, as when restoring
    /// a saved board state.
    pub fn place_piece(&mut self, cord: (usize, usize), owner: Owner, direction: i32, kinged: bool)
        requires
            old(self).spec_dims(),
            spec_in_range(cord),
            !spec_blocked(cord.0 as int, cord.1 as int),
            owner != Owner::Empty,
            direction == 1 || direction == -1,
        ensures
            final(self).spec_dims(),
            old(self).wf() ==> final(self).wf(),
            forall|r: int, c: int|
                spec_on_board(r, c) && !(r == cord.0 as int && c == cord.1 as int)
                    ==> #[trigger] final(self).spec_at(r, c) == old(self).spec_at(r, c),
            final(self).spec_at(cord.0 as int, cord.1 as int) == (Position {
                occupant: CheckerPiece { kinged, owner, direction, loc: cord },
                ..old(self).spec_at(cord.0 as int, cord.1 as int)
            }),
    {
        let p = CheckerPiece { kinged, owner, direction, loc: cord };
        self.set_occupant(cord, p);
    }
}

/// Whether any discovered jump starts at `from`.
pub fn jumps_contain_from(jumps: &Vec<Jump>, from: (usize, usize)) -> (res: bool)
    ensures
        res == exists|i: int| 0 <= i < jumps@.len() && (#[trigger] jumps@[i]).from == from,
{
    let n = jumps.len();
    for i in 0..n
        invariant
            n == jumps@.len(),
            forall|k: int| 0 <= k < i ==> (#[trigger] jumps@[k]).from != from,
    {
        let j = jumps[i];
        if j.from.0 == from.0 && j.from.1 == from.1 {
            proof {
                assert(jumps@[i as int].from == from);
            }
            return true;
        }
    }
    false
}

/// The discovered jump starting at `from` and landing on `to`, if any.
pub fn find_jump_to(jumps: &Vec<Jump>, from: (usize, usize), to: (usize, usize)) -> (res: Option<
    Jump,
>)
    ensures
        match res {
            Option::Some(j) => jumps@.contains(j) && j.from == from && j.landing == to,
            Option::None => forall|i: int|
                0 <= i < jumps@.len() ==> !((#[trigger] jumps@[i]).from == from && jumps@[i].landing
                    == to),
        },
{
    let n = jumps.len();
    for i in 0..n
        invariant
            n == jumps@.len(),
            forall|k: int|
                0 <= k < i ==> !((#[trigger] jumps@[k]).from == from && jumps@[k].landing == to),
    {
        let j = jumps[i];
        if j.from.0 == from.0 && j.from.1 == from.1 && j.landing.0 == to.0 && j.landing.1 == to.1 {
            proof {
                assert(jumps@.contains(jumps@[i as int]));
            }
            return Some(j);
        }
    }
    None
}

} // verus!
