use checkers::game::Checkers;
use checkers::owner::Owner;

fn setup() -> Checkers {
    let mut checkers = Checkers::init();
    let _ = checkers.init_with_players("test1".to_string(), "test2".to_string());
    checkers
}

#[test]
fn test_init() {
    let checkers = Checkers::init();
    assert_eq!(checkers.get_player1(), "empty");
    assert_eq!(checkers.get_player2(), "empty");
    assert_eq!(checkers.get_turn(), "empty");
    assert!(!checkers.is_ready_to_start());
    assert_eq!(checkers.get_winner(), "empty");
}

#[test]
fn test_with_players() {
    let mut checkers = setup();
    let _option = checkers.init_with_players("test1".to_string(), "test2".to_string());
    assert_eq!(checkers.get_player1(), "test1");
    assert_eq!(checkers.get_player2(), "test2");
    assert_eq!(checkers.get_turn(), "test1");
    assert!(checkers.is_ready_to_start());
    assert_eq!(checkers.get_winner(), "empty");
}

#[test]
fn test_move_piece_wrong_starting_piece() {
    let mut checkers = setup();
    let output = checkers.move_piece("test1".to_string(), (3, 0), (4, 1));
    assert!(!output);
}

#[test]
fn test_move_piece_illegal_cords() {
    let mut checkers = setup();
    let output = checkers.move_piece("test1".to_string(), (1, 8), (2, 9));
    assert!(!output);
}

#[test]
fn test_move_piece_wrong_turn() {
    let mut checkers = setup();
    let output = checkers.move_piece("test2".to_string(), (5, 6), (4, 7));
    assert!(!output);
}

#[test]
fn test_move_piece_wrong_player() {
    let mut checkers = setup();
    let output = checkers.move_piece("test2".to_string(), (2, 1), (3, 0));
    assert!(!output);
}

#[test]
fn test_move_piece_no_jump() {
    let mut checkers = setup();
    let output = checkers.move_piece("test1".to_string(), (2, 1), (3, 0));
    assert!(output);
}

#[test]
fn test_move_piece_with_jump_available() {
    let mut checkers = setup();
    let mut output = checkers.move_piece("test1".to_string(), (2, 7), (3, 6));
    assert!(output);
    output = checkers.move_piece("test2".to_string(), (5, 4), (4, 5));
    assert!(output);
    // the piece at (3, 6) holds a capture, so it may not advance
    output = checkers.move_piece("test1".to_string(), (3, 6), (4, 7));
    assert!(!output);
    // the mandatory-jump rule binds each piece alone: a piece without a
    // capture may still advance
    output = checkers.move_piece("test1".to_string(), (2, 1), (3, 0));
    assert!(output);
}

#[test]
fn test_move_piece_jump() {
    let mut checkers = setup();
    let mut output = checkers.move_piece("test1".to_string(), (2, 7), (3, 6));
    assert!(output);
    output = checkers.move_piece("test2".to_string(), (5, 4), (4, 5));
    assert!(output);
    output = checkers.move_piece("test1".to_string(), (3, 6), (5, 4));
    assert!(output);
}

#[test]
fn test_move_piece_double_jump() {
    let mut checkers = setup();
    checkers.board.place_piece((3, 6), Owner::PlayerTwo, -1, false);
    checkers.board.remove_piece((6, 5));

    let mut output = checkers.move_piece("test1".to_string(), (2, 5), (4, 7));
    assert!(output);
    assert_eq!(checkers.get_turn(), "test1");
    output = checkers.move_piece("test1".to_string(), (4, 7), (6, 5));
    assert!(output);
    assert_eq!(checkers.get_turn(), "test2");
}

#[test]
fn test_move_piece_kinged() {
    let mut checkers = setup();
    checkers.board.place_piece((1, 6), Owner::PlayerTwo, -1, false);
    checkers.board.remove_piece((0, 7));
    checkers.board.remove_piece((0, 5));
    checkers.board.remove_piece((2, 7));
    checkers.board.remove_piece((3, 6));
    checkers.board.remove_piece((4, 7));
    checkers.board.remove_piece((5, 6));
    checkers.board.remove_piece((6, 7));
    checkers.board.remove_piece((7, 6));

    let mut output = checkers.move_piece("test1".to_string(), (2, 5), (3, 4));
    assert!(output);
    assert_eq!(checkers.get_turn(), "test2");
    output = checkers.move_piece("test2".to_string(), (1, 6), (0, 7));
    assert!(output);
    assert_eq!(checkers.get_turn(), "test1");
    assert!(checkers.get_board().piece_at((0, 7)).kinged);
}

#[test]
fn test_move_piece_king_jump_normal() {
    let mut checkers = setup();
    checkers.board.place_piece((1, 6), Owner::PlayerTwo, -1, false);
    checkers.board.remove_piece((0, 7));
    checkers.board.remove_piece((0, 5));
    checkers.board.remove_piece((2, 7));
    checkers.board.remove_piece((3, 6));
    checkers.board.remove_piece((4, 7));
    checkers.board.remove_piece((5, 6));
    checkers.board.remove_piece((6, 7));
    checkers.board.remove_piece((7, 6));

    let mut output = checkers.move_piece("test1".to_string(), (2, 5), (3, 4));
    assert!(output);
    assert_eq!(checkers.get_turn(), "test2");
    output = checkers.move_piece("test2".to_string(), (1, 6), (0, 7));
    assert!(output);
    assert_eq!(checkers.get_turn(), "test1");
    assert!(checkers.get_board().piece_at((0, 7)).kinged);
    output = checkers.move_piece("test1".to_string(), (2, 1), (3, 0));
    assert!(output);
    assert_eq!(checkers.get_turn(), "test2");
    // a king jumps in either direction but still advances only forward,
    // so a plain backward step is rejected and the turn stays
    output = checkers.move_piece("test2".to_string(), (0, 7), (1, 6));
    assert!(!output);
    assert_eq!(checkers.get_turn(), "test2");
}

#[test]
fn test_move_piece_king_jump_backwards() {
    let mut checkers = setup();
    checkers.board.place_piece((1, 6), Owner::PlayerTwo, -1, false);
    checkers.board.remove_piece((0, 7));
    checkers.board.remove_piece((0, 5));
    checkers.board.remove_piece((2, 7));
    checkers.board.remove_piece((3, 6));
    checkers.board.remove_piece((4, 7));
    checkers.board.remove_piece((5, 6));
    checkers.board.remove_piece((6, 7));
    checkers.board.remove_piece((7, 6));
    checkers.board.remove_piece((2, 3));

    let mut output = checkers.move_piece("test1".to_string(), (2, 5), (3, 4));
    assert!(output);
    assert_eq!(checkers.get_turn(), "test2");
    output = checkers.move_piece("test2".to_string(), (1, 6), (0, 5));
    assert!(output);
    assert_eq!(checkers.get_turn(), "test1");
    output = checkers.move_piece("test1".to_string(), (3, 4), (4, 5));
    assert!(output);
    assert_eq!(checkers.get_turn(), "test2");
    output = checkers.move_piece("test2".to_string(), (0, 5), (2, 3));
    assert!(output);
    assert_eq!(checkers.get_turn(), "test1");
}

#[test]
fn test_move_piece_into_winning() {
    let mut checkers = setup();
    for row_index in 0..8 {
        for col_index in 0..8 {
            checkers.board.remove_piece((row_index, col_index));
        }
    }
    checkers.board.place_piece((1, 0), Owner::PlayerOne, 1, false);
    checkers.board.place_piece((2, 1), Owner::PlayerTwo, -1, false);

    let output = checkers.move_piece("test1".to_string(), (1, 0), (3, 2));
    assert!(output);
    assert_eq!(checkers.get_turn(), "test2");
    assert!(checkers.is_completed());
    assert_eq!(checkers.get_winner(), "test1");
}
