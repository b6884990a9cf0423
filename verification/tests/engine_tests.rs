use checkers::checkers_board::CheckersBoard;
use checkers::checkers_piece::CheckerPiece;
use checkers::errors::SetupError;
use checkers::game::Checkers;
use checkers::owner::Owner;
use checkers::position::Position;
use checkers::utils;

fn setup_match(name1: &str, name2: &str) -> Checkers {
    let mut checkers = Checkers::init();
    let result = checkers.setup_players(name1.to_string(), name2.to_string());
    assert_eq!(result, Ok(()));
    checkers
}

#[test]
fn setup_places_twelve_pieces_per_side() {
    let checkers = setup_match("test1", "test2");
    let ones = checkers.get_board().get_player_pieces(Owner::PlayerOne);
    let twos = checkers.get_board().get_player_pieces(Owner::PlayerTwo);
    assert_eq!(ones.len(), 12);
    assert_eq!(twos.len(), 12);
    for p in &ones {
        assert!(p.loc.0 <= 2);
        assert_eq!((p.loc.0 + p.loc.1) % 2, 1);
        assert_eq!(p.direction, 1);
        assert!(!p.kinged);
    }
    for p in &twos {
        assert!(p.loc.0 >= 5);
        assert_eq!((p.loc.0 + p.loc.1) % 2, 1);
        assert_eq!(p.direction, -1);
        assert!(!p.kinged);
    }
    assert!(checkers.is_ready_to_start());
}

#[test]
fn rejected_move_changes_nothing() {
    let mut checkers = setup_match("test1", "test2");
    let before = checkers.get_board().get_board_as_string("test1", "test2");
    let turn_before = checkers.get_turn();
    // wrong turn, unowned square, out of range, non-diagonal destination
    assert!(!checkers.move_piece("test2".to_string(), (5, 0), (4, 1)));
    assert!(!checkers.move_piece("test1".to_string(), (3, 0), (4, 1)));
    assert!(!checkers.move_piece("test1".to_string(), (2, 1), (8, 9)));
    assert!(!checkers.move_piece("test1".to_string(), (2, 1), (4, 1)));
    let after = checkers.get_board().get_board_as_string("test1", "test2");
    assert_eq!(before, after);
    assert_eq!(checkers.get_turn(), turn_before);
}

#[test]
fn discovered_jump_lists_the_capture() {
    let mut checkers = setup_match("test1", "test2");
    assert_eq!(checkers.get_board().find_available_jumps(Owner::PlayerOne).len(), 0);
    assert!(checkers.move_piece("test1".to_string(), (2, 7), (3, 6)));
    assert!(checkers.move_piece("test2".to_string(), (5, 4), (4, 5)));
    let jumps = checkers.get_board().find_available_jumps(Owner::PlayerOne);
    assert_eq!(jumps.len(), 1);
    assert_eq!(jumps[0].from, (3, 6));
    assert_eq!(jumps[0].captured, (4, 5));
    assert_eq!(jumps[0].landing, (5, 4));
    // a destination outside the discovered landings is rejected
    assert!(!checkers.move_piece("test1".to_string(), (3, 6), (4, 7)));
    // the discovered landing is accepted
    assert!(checkers.move_piece("test1".to_string(), (3, 6), (5, 4)));
    // the captured piece is gone
    assert_eq!(
        checkers.get_board().piece_at((4, 5)).owner,
        Owner::Empty
    );
}

#[test]
fn capture_without_continuation_toggles_turn() {
    let mut checkers = setup_match("test1", "test2");
    assert!(checkers.move_piece("test1".to_string(), (2, 7), (3, 6)));
    assert!(checkers.move_piece("test2".to_string(), (5, 4), (4, 5)));
    assert!(checkers.move_piece("test1".to_string(), (3, 6), (5, 4)));
    assert_eq!(checkers.get_turn(), "test2");
}

#[test]
fn kinged_piece_stays_kinged() {
    let mut checkers = setup_match("test1", "test2");
    checkers.board.place_piece((1, 6), Owner::PlayerTwo, -1, false);
    checkers.board.remove_piece((0, 7));
    checkers.board.remove_piece((5, 6));
    assert!(checkers.move_piece("test1".to_string(), (2, 1), (3, 0)));
    assert!(checkers.move_piece("test2".to_string(), (1, 6), (0, 7)));
    assert!(checkers.get_board().piece_at((0, 7)).kinged);
    // unrelated moves later, the king is still kinged
    assert!(checkers.move_piece("test1".to_string(), (2, 3), (3, 2)));
    assert!(checkers.move_piece("test2".to_string(), (5, 0), (4, 1)));
    assert!(checkers.get_board().piece_at((0, 7)).kinged);
}

#[test]
fn no_move_accepted_after_completion() {
    let mut checkers = setup_match("test1", "test2");
    for row_index in 0..8 {
        for col_index in 0..8 {
            checkers.board.remove_piece((row_index, col_index));
        }
    }
    checkers.board.place_piece((1, 0), Owner::PlayerOne, 1, false);
    checkers.board.place_piece((2, 1), Owner::PlayerTwo, -1, false);
    checkers.board.place_piece((5, 2), Owner::PlayerOne, 1, false);
    assert!(checkers.move_piece("test1".to_string(), (1, 0), (3, 2)));
    assert!(checkers.is_completed());
    assert_eq!(checkers.get_winner(), "test1");
    // the surviving pieces may not move any more
    assert!(!checkers.move_piece("test2".to_string(), (3, 2), (4, 3)));
    assert!(!checkers.move_piece("test1".to_string(), (5, 2), (6, 3)));
    assert_eq!(checkers.get_winner(), "test1");
}

#[test]
fn scenario_two_player_session() {
    let mut checkers = Checkers::init();
    assert_eq!(checkers.setup_players("a".to_string(), "b".to_string()), Ok(()));
    assert!(checkers.move_piece("a".to_string(), (2, 1), (3, 0)));
    assert_eq!(checkers.get_turn(), "b");
    // the square (2, 1) is now unoccupied, so this move is foreign to "b"
    assert!(!checkers.move_piece("b".to_string(), (2, 1), (3, 0)));
    assert_eq!(checkers.get_turn(), "b");
    assert!(!checkers.move_piece("a".to_string(), (1, 8), (2, 9)));
}

#[test]
fn scenario_chained_jump_keeps_turn() {
    let mut checkers = Checkers::init();
    assert_eq!(checkers.setup_players("a".to_string(), "b".to_string()), Ok(()));
    // stage the board as in the double-jump game: the piece from (5, 4)
    // stands on (3, 6), and (6, 5) is free
    checkers.board.remove_piece((5, 4));
    checkers.board.place_piece((3, 6), Owner::PlayerTwo, -1, false);
    checkers.board.remove_piece((6, 5));
    assert!(checkers.move_piece("a".to_string(), (2, 5), (4, 7)));
    assert_eq!(checkers.get_turn(), "a");
    assert!(checkers.move_piece("a".to_string(), (4, 7), (6, 5)));
    assert_eq!(checkers.get_turn(), "b");
}

#[test]
fn setup_rejects_bad_names() {
    let mut checkers = Checkers::init();
    assert_eq!(
        checkers.setup_players("".to_string(), "b".to_string()),
        Err(SetupError::EmptyName)
    );
    let mut checkers = Checkers::init();
    assert_eq!(
        checkers.setup_players("a".to_string(), "EMPTY".to_string()),
        Err(SetupError::EmptyName)
    );
    let mut checkers = Checkers::init();
    assert_eq!(
        checkers.setup_players("Alice".to_string(), "alice".to_string()),
        Err(SetupError::DuplicateName)
    );
}

#[test]
fn setup_lowercases_names() {
    let checkers = setup_match("TestA", "TestB");
    assert_eq!(checkers.get_player1(), "testa");
    assert_eq!(checkers.get_player2(), "testb");
    assert_eq!(checkers.get_turn(), "testa");
}

#[test]
fn setup_rejects_a_dirty_board() {
    let mut checkers = setup_match("test1", "test2");
    assert!(checkers.move_piece("test1".to_string(), (2, 1), (3, 0)));
    // a leftover piece in the middle rows breaks the piece counts
    assert_eq!(
        checkers.setup_players("test1".to_string(), "test2".to_string()),
        Err(SetupError::PiecesNotReady)
    );
}

#[test]
fn initialize_requires_assigned_sides() {
    let mut board = CheckersBoard::init();
    assert_eq!(
        board.initialize_board_pieces(),
        Err(SetupError::OwnershipNotReady)
    );
    board.assign_side(0, Owner::PlayerOne);
    board.assign_side(7, Owner::PlayerTwo);
    assert_eq!(board.initialize_board_pieces(), Ok(()));
    assert!(board.is_board_ownership_ready());
    assert!(board.is_board_pieces_ready());
}

#[test]
fn position_renders_its_triple() {
    let pos = Position {
        owner: Owner::Empty,
        occupant: CheckerPiece { kinged: false, owner: Owner::PlayerOne, direction: 1, loc: (2, 1) },
        blocked: false,
    };
    assert_eq!(pos.to_string("alice", "bob"), "(2, 1, alice)");
    let mut blocked = Position::init_with_loc((0, 0));
    blocked.blocked = true;
    assert_eq!(blocked.to_string("alice", "bob"), "X");
    let vacant = Position::init_with_loc((4, 3));
    assert_eq!(vacant.to_string("alice", "bob"), "(4, 3, empty)");
}

#[test]
fn compact_render_lists_every_square() {
    let checkers = setup_match("test1", "test2");
    let s = checkers.get_board().get_board_as_string("test1", "test2");
    assert!(s.starts_with(
        "[[X, (0, 1, test1), X, (0, 3, test1), X, (0, 5, test1), X, (0, 7, test1)],"
    ));
    assert!(s.ends_with(
        "[(7, 0, test2), X, (7, 2, test2), X, (7, 4, test2), X, (7, 6, test2), X]]"
    ));
}

#[test]
fn grid_render_pads_short_names() {
    let checkers = setup_match("a", "b");
    let s = checkers.get_board().to_string("a", "b");
    let first_line = s.lines().next().unwrap();
    assert_eq!(
        first_line,
        "[ (0, 0) ----- | (0, 1)     a | (0, 2) ----- | (0, 3)     a | (0, 4) ----- | (0, 5)     a | (0, 6) ----- | (0, 7)     a ]"
    );
    assert_eq!(s.lines().count(), 8);
}

#[test]
fn add_offsets_coordinates() {
    assert_eq!(utils::add(3, 1), 4);
    assert_eq!(utils::add(3, -1), 2);
    assert_eq!(utils::add(0, 7), 7);
}
