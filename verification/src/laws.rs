//! Engine-wide laws, stated and proved over the same spec functions the
//! public contracts use.

use vstd::prelude::*;

use crate::checkers_board::{
    spec_blocked, spec_in_range, spec_on_board, spec_setup_square, CheckersBoard, Jump,
};
use crate::errors::SetupError;
use crate::game::{spec_move_post, spec_setup_post, Checkers};
use crate::owner::Owner;

verus! {

/// How many of the first `n` squares, in row-major order, receive a
/// starting piece of `player` during setup.
pub open spec fn spec_standard_count_below(player: Owner, n: int) -> nat
    decreases n,
{
    if n <= 0 {
        0
    } else {
        spec_standard_count_below(player, n - 1) + (if CheckersBoard::spec_starting_square(
            (n - 1) / 8,
            (n - 1) % 8,
        ) && CheckersBoard::spec_starting_owner((n - 1) / 8) == player {
            1nat
        } else {
            0nat
        })
    }
}

/// How many of the first `n` squares lie in the two middle rows (3 and
/// 4) and hold a piece of `player` on board `b`.
pub open spec fn spec_mid_count(b: CheckersBoard, player: Owner, n: int) -> nat
    decreases n,
{
    if n <= 0 {
        0
    } else {
        spec_mid_count(b, player, n - 1) + (if 3 <= (n - 1) / 8 <= 4 && b.spec_owner_at(
            (n - 1) / 8,
            (n - 1) % 8,
        ) == player {
            1nat
        } else {
            0nat
        })
    }
}

/// On a freshly set-up board, the piece count of a player splits into
/// the twelve starting pieces plus whatever was left over in the two
/// middle rows of the board the setup ran over.
proof fn lemma_setup_count_split(b0: CheckersBoard, b: CheckersBoard, player: Owner, n: int)
    requires
        b0.wf(),
        b.spec_dims(),
        forall|r: int, c: int|
            spec_on_board(r, c) ==> #[trigger] b.spec_at(r, c) == spec_setup_square(b0, r, c),
        player != Owner::Empty,
        0 <= n <= 64,
    ensures
        b.spec_count_prefix(player, n) == spec_standard_count_below(player, n) + spec_mid_count(
            b,
            player,
            n,
        ),
    decreases n,
{
    if n > 0 {
        lemma_setup_count_split(b0, b, player, n - 1);
        let r = (n - 1) / 8;
        let c = (n - 1) % 8;
        assert(spec_on_board(r, c));
        assert(b.spec_at(r, c) == spec_setup_square(b0, r, c));
        if (r <= 2 || r >= 5) && spec_blocked(r, c) {
            assert(b0.spec_at(r, c).occupant.owner == Owner::Empty);
        }
    }
}

/// A middle-row count is zero exactly when no square of the two middle
/// rows holds a piece of the player.
proof fn lemma_mid_count_zero(b: CheckersBoard, player: Owner, n: int)
    requires
        0 <= n <= 64,
    ensures
        (spec_mid_count(b, player, n) == 0) <==> (forall|r: int, c: int|
            3 <= r <= 4 && 0 <= c < 8 && r * 8 + c < n ==> #[trigger] b.spec_owner_at(r, c)
                != player),
    decreases n,
{
    if n > 0 {
        lemma_mid_count_zero(b, player, n - 1);
        let rr = (n - 1) / 8;
        let cc = (n - 1) % 8;
        if spec_mid_count(b, player, n) == 0 {
            assert forall|r: int, c: int|
                3 <= r <= 4 && 0 <= c < 8 && r * 8 + c < n implies #[trigger] b.spec_owner_at(
                r,
                c,
            ) != player by {
                if r * 8 + c == n - 1 {
                    assert(r == rr && c == cc);
                }
            }
        }
        if forall|r: int, c: int|
            3 <= r <= 4 && 0 <= c < 8 && r * 8 + c < n ==> #[trigger] b.spec_owner_at(r, c)
                != player {
            if 3 <= rr <= 4 {
                assert(rr * 8 + cc == n - 1);
                assert(b.spec_owner_at(rr, cc) != player);
            }
        }
    }
}

/// Setup places exactly twelve starting pieces per player.
proof fn lemma_standard_count_total()
    ensures
        spec_standard_count_below(Owner::PlayerOne, 64) == 12,
        spec_standard_count_below(Owner::PlayerTwo, 64) == 12,
{
    reveal_with_fuel(spec_standard_count_below, 65);
    assert(spec_standard_count_below(Owner::PlayerOne, 64) == 12);
    assert(spec_standard_count_below(Owner::PlayerTwo, 64) == 12);
}

/// For every freshly set-up match, the pieces-ready check holds exactly
/// when each side owns twelve pieces, and exactly when every piece on
/// the board is a starting piece: the first player's on the non-blocked
/// squares of rows 0 to 2, the second player's on the non-blocked
/// squares of rows 5 to 7, and none anywhere else.
pub proof fn lemma_setup_pieces_ready(
    pre: Checkers,
    post: Checkers,
    name1: Seq<char>,
    name2: Seq<char>,
    res: Result<(), SetupError>,
)
    requires
        pre.wf(),
        post.wf(),
        spec_setup_post(pre, post, name1, name2, res),
    ensures
        post.board.spec_first_row_owner() == Owner::PlayerOne,
        post.board.spec_last_row_owner() == Owner::PlayerTwo,
        post.board.spec_pieces_ready() <==> (post.board.spec_piece_count(Owner::PlayerOne) == 12
            && post.board.spec_piece_count(Owner::PlayerTwo) == 12),
        post.board.spec_pieces_ready() <==> (forall|r: int, c: int|
            spec_on_board(r, c) ==> ((#[trigger] post.board.spec_owner_at(r, c)
                == Owner::PlayerOne ==> r <= 2 && !spec_blocked(r, c)) && (post.board.spec_owner_at(
                r,
                c,
            ) == Owner::PlayerTwo ==> r >= 5 && !spec_blocked(r, c)))),
{
    let b0 = pre.board;
    let b = post.board;
    assert(b.spec_at(0, 0) == spec_setup_square(b0, 0, 0));
    assert(b.spec_at(7, 0) == spec_setup_square(b0, 7, 0));
    lemma_setup_count_split(b0, b, Owner::PlayerOne, 64);
    lemma_setup_count_split(b0, b, Owner::PlayerTwo, 64);
    lemma_standard_count_total();
    lemma_mid_count_zero(b, Owner::PlayerOne, 64);
    lemma_mid_count_zero(b, Owner::PlayerTwo, 64);
    if spec_mid_count(b, Owner::PlayerOne, 64) == 0 && spec_mid_count(b, Owner::PlayerTwo, 64)
        == 0 {
        assert forall|r: int, c: int|
            spec_on_board(r, c) implies ((#[trigger] b.spec_owner_at(r, c) == Owner::PlayerOne
            ==> r <= 2 && !spec_blocked(r, c)) && (b.spec_owner_at(r, c) == Owner::PlayerTwo ==> r
            >= 5 && !spec_blocked(r, c))) by {
            assert(b.spec_at(r, c) == spec_setup_square(b0, r, c));
            if 3 <= r <= 4 {
                assert(b.spec_owner_at(r, c) != Owner::PlayerOne);
                assert(b.spec_owner_at(r, c) != Owner::PlayerTwo);
            } else if spec_blocked(r, c) {
                assert(b0.spec_at(r, c).occupant.owner == Owner::Empty);
            }
        }
    }
    if forall|r: int, c: int|
        spec_on_board(r, c) ==> ((#[trigger] b.spec_owner_at(r, c) == Owner::PlayerOne ==> r <= 2
            && !spec_blocked(r, c)) && (b.spec_owner_at(r, c) == Owner::PlayerTwo ==> r >= 5
            && !spec_blocked(r, c))) {
        assert forall|r: int, c: int| 3 <= r <= 4 && 0 <= c < 8 implies #[trigger] b.spec_owner_at(
            r,
            c,
        ) != Owner::PlayerOne && b.spec_owner_at(r, c) != Owner::PlayerTwo by {
            assert(spec_on_board(r, c));
        }
    }
}

/// Mandatory-jump law: when the discovered jumps of `player` include the
/// square `from`, a submitted move of that piece to a destination that
/// is not among its discovered landings is rejected, whoever submits it.
pub proof fn lemma_mandatory_jump(
    c: Checkers,
    name: Seq<char>,
    player: Owner,
    jumps: Seq<Jump>,
    from: (usize, usize),
    to: (usize, usize),
)
    requires
        c.wf(),
        spec_in_range(from),
        forall|j: Jump| #[trigger] jumps.contains(j) <==> c.board.spec_player_jump(player, j),
        exists|i: int| 0 <= i < jumps.len() && (#[trigger] jumps[i]).from == from,
        forall|i: int|
            0 <= i < jumps.len() ==> !((#[trigger] jumps[i]).from == from && jumps[i].landing
                == to),
    ensures
        !c.spec_move_legal(name, from, to),
{
    c.board.lemma_jumps_from(player, jumps, from);
    c.board.lemma_jumps_to(player, jumps, from, to);
}

/// Chained-jump law: an accepted capture that leaves the moved piece a
/// further jump keeps the turn with the mover; every other accepted
/// move hands the turn to the opponent.
pub proof fn lemma_chained_jump_turn(
    pre: Checkers,
    post: Checkers,
    name: Seq<char>,
    from: (usize, usize),
    to: (usize, usize),
)
    requires
        pre.wf(),
        pre.spec_move_legal(name, from, to),
        spec_move_post(pre, post, from, to),
    ensures
        pre.board.spec_has_jump(from) && post.board.spec_has_jump(to) ==> post.turn == pre.turn,
        !(pre.board.spec_has_jump(from) && post.board.spec_has_jump(to)) ==> post.turn
            == pre.turn.spec_opponent(),
        (post.turn == pre.turn) <==> (pre.board.spec_has_jump(from) && post.board.spec_has_jump(
            to,
        )),
{
}

/// Kinging law: a piece reaching its owner's far back rank comes out of
/// the move kinged, a kinged piece that moves stays kinged, and a kinged
/// piece that stands still and survives stays kinged.
pub proof fn lemma_kinging(
    pre: Checkers,
    post: Checkers,
    name: Seq<char>,
    from: (usize, usize),
    to: (usize, usize),
)
    requires
        pre.wf(),
        pre.spec_move_legal(name, from, to),
        spec_move_post(pre, post, from, to),
    ensures
        crate::checkers_board::spec_promoted(
            pre.board.spec_piece(from.0 as int, from.1 as int),
            to,
        ) ==> post.board.spec_piece(to.0 as int, to.1 as int).kinged,
        pre.board.spec_piece(from.0 as int, from.1 as int).kinged ==> post.board.spec_piece(
            to.0 as int,
            to.1 as int,
        ).kinged,
        forall|r: int, c: int|
            spec_on_board(r, c) && (#[trigger] pre.board.spec_piece(r, c)).kinged
                && post.board.spec_piece(r, c).owner != Owner::Empty ==> post.board.spec_piece(
                r,
                c,
            ).kinged,
{
    assert forall|r: int, c: int|
        spec_on_board(r, c) && (#[trigger] pre.board.spec_piece(r, c)).kinged
            && post.board.spec_piece(r, c).owner != Owner::Empty implies post.board.spec_piece(
        r,
        c,
    ).kinged by {
        let cap = pre.board.spec_move_capture(from, to);
        if !crate::checkers_board::spec_move_touches(from, to, cap, r, c) {
            assert(post.board.spec_piece(r, c) == pre.board.spec_piece(r, c));
        }
    }
}

/// Win law: an accepted move completes the match exactly when it leaves
/// the opponent without pieces; the mover is then the winner, and a
/// completed match accepts no further move.
pub proof fn lemma_win(
    pre: Checkers,
    post: Checkers,
    name: Seq<char>,
    from: (usize, usize),
    to: (usize, usize),
)
    requires
        pre.wf(),
        pre.spec_move_legal(name, from, to),
        spec_move_post(pre, post, from, to),
    ensures
        post.completed <==> post.board.spec_piece_count(pre.turn.spec_opponent()) == 0,
        post.completed ==> post.winner == pre.turn,
        !post.completed ==> post.winner == pre.winner,
        forall|name2: Seq<char>, from2: (usize, usize), to2: (usize, usize)|
            post.completed ==> !(#[trigger] post.spec_move_legal(name2, from2, to2)),
{
}

} // verus!
