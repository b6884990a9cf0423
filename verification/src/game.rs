//! The match: player identities, turn arbitration and win detection.
//!
//! A match owns two player name strings, the whose-turn state, a board
//! and the completion state.  Submitted moves are validated against the
//! turn, ownership and jump-priority rules before the mechanical
//! relocation is delegated to the board; after a capture the same player
//! keeps the turn while the moved piece can capture further.

use vstd::prelude::*;

use crate::checkers_board::{
    jumps_contain_from, find_jump_to, spec_blocked, spec_in_range, spec_on_board, spec_relocated,
    spec_setup_square, CheckersBoard,
};
use crate::errors::SetupError;
use crate::owner::Owner;
use crate::utils::{lower_of, lowercase, spec_ascii_no_uppercase};

verus! {

pub struct Checkers {
    /// The first player's lowercase-normalized name; the sentinel name
    /// before setup.
    pub player1: String,
    /// The second player's lowercase-normalized name.
    pub player2: String,
    /// The exclusively owned board.
    pub board: CheckersBoard,
    /// Whose move is next; `Empty` before setup.
    pub turn: Owner,
    /// Becomes true once a win is detected; never reset.
    pub completed: bool,
    /// The winning player once completed; `Empty` before.
    pub winner: Owner,
}

/// The submitted names are usable: neither is empty, neither lowercases
/// to the reserved sentinel name, and they do not lowercase to the same
/// name.
pub open spec fn spec_names_ok(name1: Seq<char>, name2: Seq<char>) -> bool {
    let n1 = lower_of(name1);
    let n2 = lower_of(name2);
    &&& name1.len() != 0
    &&& name2.len() != 0
    &&& n1 != "empty"@
    &&& n2 != "empty"@
    &&& n1 != n2
}

/// Everything `setup_players` did to the match, whatever it returned:
/// names lowercased and stored (an already-lowercase ASCII name is kept
/// as it is), the turn handed to the first player, the board sided and
/// populated, completion state untouched, and the result reporting the
/// first failed check.
pub open spec fn spec_setup_post(
    pre: Checkers,
    post: Checkers,
    name1: Seq<char>,
    name2: Seq<char>,
    res: Result<(), SetupError>,
) -> bool {
    let n1 = lower_of(name1);
    let n2 = lower_of(name2);
    &&& post.player1@ == n1
    &&& post.player2@ == n2
    &&& (post.player1@.len() == 0) <==> (name1.len() == 0)
    &&& (post.player2@.len() == 0) <==> (name2.len() == 0)
    &&& spec_ascii_no_uppercase(name1) ==> post.player1@ == name1
    &&& spec_ascii_no_uppercase(name2) ==> post.player2@ == name2
    &&& post.turn == Owner::PlayerOne
    &&& post.completed == pre.completed
    &&& post.winner == pre.winner
    &&& forall|r: int, c: int|
        spec_on_board(r, c) ==> #[trigger] post.board.spec_at(r, c) == spec_setup_square(
            pre.board,
            r,
            c,
        )
    &&& (res is Ok) == (spec_names_ok(name1, name2) && post.board.spec_pieces_ready())
    &&& res == (if name1.len() == 0 || name2.len() == 0 || n1 == "empty"@ || n2 == "empty"@ {
        Result::<(), SetupError>::Err(SetupError::EmptyName)
    } else if n1 == n2 {
        Result::<(), SetupError>::Err(SetupError::DuplicateName)
    } else if !post.board.spec_pieces_ready() {
        Result::<(), SetupError>::Err(SetupError::PiecesNotReady)
    } else {
        Result::<(), SetupError>::Ok(())
    })
}

/// Everything a successful `move_piece` did to the match: the board
/// rewritten by the relocation, the turn kept by the mover only when a
/// capture left the moved piece a further jump, and completion recorded
/// exactly when the opponent ran out of pieces.
pub open spec fn spec_move_post(
    pre: Checkers,
    post: Checkers,
    from: (usize, usize),
    to: (usize, usize),
) -> bool {
    let mover = pre.turn;
    let was_jump = pre.board.spec_has_jump(from);
    let beaten = post.board.spec_piece_count(mover.spec_opponent()) == 0;
    &&& spec_relocated(pre.board, post.board, from, to, pre.board.spec_move_capture(from, to))
    &&& post.player1 == pre.player1
    &&& post.player2 == pre.player2
    &&& post.turn == (if was_jump && post.board.spec_has_jump(to) {
        mover
    } else {
        mover.spec_opponent()
    })
    &&& post.completed == (pre.completed || beaten)
    &&& post.winner == (if beaten {
        mover
    } else {
        pre.winner
    })
}

impl Checkers {
    /// The board is well-formed at all times.
    pub open spec fn wf(&self) -> bool {
        self.board.wf()
    }

    /// The name string that stands for `o` towards callers.
    pub open spec fn spec_name_of(&self, o: Owner) -> Seq<char> {
        match o {
            Owner::Empty => "empty"@,
            Owner::PlayerOne => self.player1@,
            Owner::PlayerTwo => self.player2@,
        }
    }

    /// The player identifier a submitted name string stands for.
    pub open spec fn spec_resolve(&self, name: Seq<char>) -> Owner {
        if self.player1@ == name {
            Owner::PlayerOne
        } else if self.player2@ == name {
            Owner::PlayerTwo
        } else {
            Owner::Empty
        }
    }

    /// A submitted move is accepted exactly when the match is still
    /// running, the submitting player holds the turn, and the move is
    /// legal on the board for that player.
    pub open spec fn spec_move_legal(
        &self,
        name: Seq<char>,
        from: (usize, usize),
        to: (usize, usize),
    ) -> bool {
        &&& !self.completed
        &&& self.turn != Owner::Empty
        &&& self.spec_resolve(name) == self.turn
        &&& self.board.spec_board_move_legal(self.turn, from, to)
    }

    /// A fresh match: sentinel players and turn, a fresh board, not
    /// completed, no winner.
    pub fn init() -> (c: Checkers)
        ensures
            c.wf(),
            c.player1@ == "empty"@,
            c.player2@ == "empty"@,
            c.turn == Owner::Empty,
            !c.completed,
            c.winner == Owner::Empty,
            forall|r: int, c0: int|
                spec_on_board(r, c0) ==> #[trigger] c.board.spec_at(r, c0)
                    == crate::checkers_board::spec_fresh_square(r, c0),
    {
        Checkers {
            player1: "empty".to_owned(),
            player2: "empty".to_owned(),
            board: CheckersBoard::init(),
            turn: Owner::Empty,
            completed: false,
            winner: Owner::Empty,
        }
    }

    /// Lowercases and stores both names, hands the turn to the first
    /// player, assigns side ownership (row 0 to the first player, row 7
    /// to the second), populates the starting pieces, and then verifies
    /// readiness.  Fails when a name is empty, reserved or duplicated,
    /// or when the populated board does not pass the readiness checks.
    pub fn setup_players(&mut self, player1: String, player2: String) -> (res: Result<
        (),
        SetupError,
    >)
        requires
            old(self).wf(),
        ensures
            final(self).wf(),
            spec_setup_post(*old(self), *final(self), player1@, player2@, res),
    {
        self.set_player1(&player1);
        self.set_player2(&player2);
        self.set_turn(Owner::PlayerOne);
        self.assign_side(0, Owner::PlayerOne);
        self.assign_side(7, Owner::PlayerTwo);
        let init_res = self.initialize_board();
        proof {
            assert(init_res is Ok);
        }
        if let Err(e) = init_res {
            return Err(e);
        }
        let empty_sentinel: String = "empty".to_owned();
        if self.player1.as_str().is_empty() || self.player2.as_str().is_empty() || self.player1
            == empty_sentinel || self.player2 == empty_sentinel {
            return Err(SetupError::EmptyName);
        }
        if self.player1 == self.player2 {
            return Err(SetupError::DuplicateName);
        }
        if !self.is_ready_to_start() {
            return Err(SetupError::PiecesNotReady);
        }
        Ok(())
    }

    /// Sets up the match for the two named players, as `setup_players`.
    pub fn init_with_players(&mut self, player1: String, player2: String) -> (res: Result<
        (),
        SetupError,
    >)
        requires
            old(self).wf(),
        ensures
            final(self).wf(),
            spec_setup_post(*old(self), *final(self), player1@, player2@, res),
    {
        self.setup_players(player1, player2)
    }

    /// The first player's name.
    pub fn get_player1(&self) -> (r: String)
        ensures
            r@ == self.player1@,
    {
        self.player1.clone()
    }

    fn set_player1(&mut self, player_name: &String)
        ensures
            final(self).player1@ == lower_of(player_name@),
            (final(self).player1@.len() == 0) <==> (player_name@.len() == 0),
            spec_ascii_no_uppercase(player_name@) ==> final(self).player1@ == player_name@,
            final(self).player2 == old(self).player2,
            final(self).board == old(self).board,
            final(self).turn == old(self).turn,
            final(self).completed == old(self).completed,
            final(self).winner == old(self).winner,
    {
        self.player1 = lowercase(player_name);
    }

    /// The second player's name.
    pub fn get_player2(&self) -> (r: String)
        ensures
            r@ == self.player2@,
    {
        self.player2.clone()
    }

    fn set_player2(&mut self, player_name: &String)
        ensures
            final(self).player2@ == lower_of(player_name@),
            (final(self).player2@.len() == 0) <==> (player_name@.len() == 0),
            spec_ascii_no_uppercase(player_name@) ==> final(self).player2@ == player_name@,
            final(self).player1 == old(self).player1,
            final(self).board == old(self).board,
            final(self).turn == old(self).turn,
            final(self).completed == old(self).completed,
            final(self).winner == old(self).winner,
    {
        self.player2 = lowercase(player_name);
    }

    /// The name of the player who moves next, or the sentinel before setup.
    pub fn get_turn(&self) -> (r: String)
        ensures
            r@ == self.spec_name_of(self.turn),
    {
        match self.turn {
            Owner::Empty => "empty".to_owned(),
            Owner::PlayerOne => self.player1.clone(),
            Owner::PlayerTwo => self.player2.clone(),
        }
    }

    fn set_turn(&mut self, player: Owner)
        ensures
            *final(self) == (Checkers {
                turn: if player == Owner::Empty {
                    old(self).turn
                } else {
                    player
                },
                ..*old(self)
            }),
    {
        if player == Owner::Empty {
            return ;
        }
        self.turn = player;
    }

    /// The winner's name once the match is completed, the sentinel before.
    pub fn get_winner(&self) -> (r: String)
        ensures
            r@ == self.spec_name_of(self.winner),
    {
        match self.winner {
            Owner::Empty => "empty".to_owned(),
            Owner::PlayerOne => self.player1.clone(),
            Owner::PlayerTwo => self.player2.clone(),
        }
    }

    /// A read-only view of the board.
    pub fn get_board(&self) -> (b: &CheckersBoard)
        ensures
            b == &self.board,
    {
        &self.board
    }

    /// True once a win has been detected; never reset.
    pub fn is_completed(&self) -> (r: bool)
        ensures
            r == self.completed,
    {
        self.completed
    }

    fn assign_side(&mut self, side: usize, owner: Owner)
        requires
            old(self).wf(),
        ensures
            final(self).wf(),
            final(self).player1 == old(self).player1,
            final(self).player2 == old(self).player2,
            final(self).turn == old(self).turn,
            final(self).completed == old(self).completed,
            final(self).winner == old(self).winner,
            forall|r: int, c: int|
                spec_on_board(r, c) && r != side as int ==> #[trigger] final(self).board.spec_at(
                    r,
                    c,
                ) == old(self).board.spec_at(r, c),
            side < 8 ==> forall|c: int|
                0 <= c < 8 ==> #[trigger] final(self).board.spec_at(side as int, c)
                    == (crate::position::Position {
                    owner,
                    ..old(self).board.spec_at(side as int, c)
                }),
    {
        self.board.assign_side(side, owner);
    }

    fn initialize_board(&mut self) -> (res: Result<(), SetupError>)
        requires
            old(self).wf(),
        ensures
            final(self).wf(),
            final(self).player1 == old(self).player1,
            final(self).player2 == old(self).player2,
            final(self).turn == old(self).turn,
            final(self).completed == old(self).completed,
            final(self).winner == old(self).winner,
            (res is Ok) == old(self).board.spec_ownership_ready(),
            res is Err ==> final(self).board == old(self).board && res == Result::<
                (),
                SetupError,
            >::Err(SetupError::OwnershipNotReady),
            res is Ok ==> forall|r: int, c: int|
                spec_on_board(r, c) ==> #[trigger] final(self).board.spec_at(r, c) == (
                if CheckersBoard::spec_starting_square(r, c) {
                    crate::position::Position {
                        occupant: CheckersBoard::spec_starting_piece(r, c),
                        ..old(self).board.spec_at(r, c)
                    }
                } else {
                    old(self).board.spec_at(r, c)
                }),
    {
        self.board.initialize_board_pieces()
    }

    /// Both readiness checks of the board: consistent side ownership of
    /// the back ranks, and twelve pieces per side.
    pub fn is_ready_to_start(&self) -> (res: bool)
        requires
            self.wf(),
        ensures
            res == (self.board.spec_ownership_ready() && self.board.spec_pieces_ready()),
    {
        self.board.is_board_ownership_ready() && self.board.is_board_pieces_ready()
    }

    fn resolve_player(&self, name: &String) -> (r: Owner)
        ensures
            r == self.spec_resolve(name@),
    {
        if *name == self.player1 {
            Owner::PlayerOne
        } else if *name == self.player2 {
            Owner::PlayerTwo
        } else {
            Owner::Empty
        }
    }

    /// Checks that a submitted move is valid to make, and makes it.
    ///
    /// A move is accepted when the match is running, `player` holds the
    /// turn and owns the piece at `piece_cord`, and `dest_cord` is a
    /// discovered jump of that piece — or, only when the piece has no
    /// jump available, one diagonal step forward onto an empty square.
    /// After a capture the mover keeps the turn while the moved piece
    /// has a further jump; otherwise the turn toggles.  A move that
    /// leaves the opponent without pieces completes the match.  Returns
    /// whether the move was applied; a rejected move changes nothing.
    pub fn move_piece(
        &mut self,
        player: String,
        piece_cord: (usize, usize),
        dest_cord: (usize, usize),
    ) -> (res: bool)
        requires
            old(self).wf(),
        ensures
            final(self).wf(),
            res == old(self).spec_move_legal(player@, piece_cord, dest_cord),
            !res ==> *final(self) == *old(self),
            res ==> spec_move_post(*old(self), *final(self), piece_cord, dest_cord),
    {
        if self.completed {
            return false;
        }
        if piece_cord.0 >= 8 || piece_cord.1 >= 8 || dest_cord.0 >= 8 || dest_cord.1 >= 8 {
            return false;
        }
        let pid = self.resolve_player(&player);
        if pid == Owner::Empty {
            return false;
        }
        if pid != self.turn {
            return false;
        }
        let selected_piece = self.board.piece_at(piece_cord);
        if selected_piece.owner != pid {
            return false;
        }
        let all_jumps = self.board.find_available_jumps(pid);
        proof {
            self.board.lemma_jumps_from(pid, all_jumps@, piece_cord);
            self.board.lemma_jumps_to(pid, all_jumps@, piece_cord, dest_cord);
        }
        if jumps_contain_from(&all_jumps, piece_cord) {
            match find_jump_to(&all_jumps, piece_cord, dest_cord) {
                Some(j) => {
                    proof {
                        assert(self.board.spec_player_jump(pid, j));
                        self.board.lemma_jump_is_record(selected_piece, j);
                    }
                    self.complete_piece_move(piece_cord, dest_cord, Some(j.captured), false);
                    let next_jumps = self.board.find_available_jumps(pid);
                    proof {
                        self.board.lemma_jumps_from(pid, next_jumps@, dest_cord);
                    }
                    if !jumps_contain_from(&next_jumps, dest_cord) {
                        self.toggle_turn();
                    }
                    self.complete(pid);
                    true
                },
                None => false,
            }
        } else {
            let dir = selected_piece.direction;
            let row_ok = if dir < 0 && piece_cord.0 == 0 {
                false
            } else {
                crate::utils::add(piece_cord.0, dir) == dest_cord.0
            };
            let col_ok = piece_cord.1 + 1 == dest_cord.1 || dest_cord.1 + 1 == piece_cord.1;
            let dest_piece = self.board.piece_at(dest_cord);
            if row_ok && col_ok && dest_piece.owner == Owner::Empty {
                self.complete_piece_move(piece_cord, dest_cord, None, true);
                self.complete(pid);
                true
            } else {
                false
            }
        }
    }

    /// Performs the mechanical shifting of pieces for one accepted move:
    /// relocation with promotion, removal of a jumped piece, and the
    /// turn toggle when the player's turn is over.
    fn complete_piece_move(
        &mut self,
        piece_cord: (usize, usize),
        dest_cord: (usize, usize),
        jumped_piece_cord: Option<(usize, usize)>,
        toggle_turn: bool,
    ) -> (res: bool)
        requires
            old(self).wf(),
            spec_in_range(piece_cord),
            spec_in_range(dest_cord),
            piece_cord != dest_cord,
            !spec_blocked(dest_cord.0 as int, dest_cord.1 as int),
            old(self).board.spec_owner_at(piece_cord.0 as int, piece_cord.1 as int)
                != Owner::Empty,
            jumped_piece_cord matches Some(cc) ==> spec_in_range(cc) && cc != dest_cord && cc
                != piece_cord,
        ensures
            final(self).wf(),
            res,
            spec_relocated(
                old(self).board,
                final(self).board,
                piece_cord,
                dest_cord,
                jumped_piece_cord,
            ),
            final(self).player1 == old(self).player1,
            final(self).player2 == old(self).player2,
            final(self).completed == old(self).completed,
            final(self).winner == old(self).winner,
            final(self).turn == (if toggle_turn {
                if old(self).turn == Owner::PlayerOne {
                    Owner::PlayerTwo
                } else {
                    Owner::PlayerOne
                }
            } else {
                old(self).turn
            }),
    {
        self.board.apply_relocation(piece_cord, dest_cord, jumped_piece_cord);
        if toggle_turn {
            self.toggle_turn();
        }
        true
    }

    fn toggle_turn(&mut self)
        ensures
            *final(self) == (Checkers {
                turn: if old(self).turn == Owner::PlayerOne {
                    Owner::PlayerTwo
                } else {
                    Owner::PlayerOne
                },
                ..*old(self)
            }),
    {
        if self.turn == Owner::PlayerOne {
            self.turn = Owner::PlayerTwo;
        } else {
            self.turn = Owner::PlayerOne;
        }
    }

    /// Records the win when `mover`'s opponent has no pieces left.
    fn complete(&mut self, mover: Owner)
        requires
            old(self).wf(),
            mover == Owner::PlayerOne || mover == Owner::PlayerTwo,
        ensures
            final(self).wf(),
            final(self).player1 == old(self).player1,
            final(self).player2 == old(self).player2,
            final(self).board == old(self).board,
            final(self).turn == old(self).turn,
            final(self).completed == (old(self).completed || old(self).board.spec_piece_count(
                mover.spec_opponent(),
            ) == 0),
            final(self).winner == (if old(self).board.spec_piece_count(mover.spec_opponent())
                == 0 {
                mover
            } else {
                old(self).winner
            }),
    {
        let opponent = mover.opponent();
        let remaining = self.board.get_player_pieces(opponent);
        if remaining.len() == 0 {
            self.completed = true;
            self.winner = mover;
        }
    }
}

} // verus!
