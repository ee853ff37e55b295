use oh_my_chess::Board;
use oh_my_chess::ChessMove;
use oh_my_chess::Direction;
use oh_my_chess::GameState;
use oh_my_chess::GameStatus;
use oh_my_chess::MoveError;
use oh_my_chess::OhMyChess;
use oh_my_chess::Piece;
use oh_my_chess::Player;

fn empty_board() -> Board {
    [[None; 8]; 8]
}

fn state_of(board: Board, turn: Player) -> GameState {
    GameState { board, turn, players: (1, 2), status: GameStatus::Ongoing }
}

fn mv(from: (u8, u8), to: (u8, u8)) -> ChessMove {
    ChessMove { from, to }
}

fn engine() -> OhMyChess {
    OhMyChess::new(0)
}

#[test]
fn scenario_king_escapes_rook() {
    let mut board = empty_board();
    board[0][0] = Some((Piece::King, Player::White));
    board[7][0] = Some((Piece::Rook, Player::Black));
    let state = state_of(board, Player::White);
    let e = engine();
    assert_eq!(e.validate(&state, &mv((0, 0), (0, 1)), &Player::White), Ok(()));
}

#[test]
fn scenario_king_stays_on_rook_file() {
    let mut board = empty_board();
    board[0][0] = Some((Piece::King, Player::White));
    board[7][0] = Some((Piece::Rook, Player::Black));
    let state = state_of(board, Player::White);
    let e = engine();
    assert_eq!(
        e.validate(&state, &mv((0, 0), (1, 0)), &Player::White),
        Err(MoveError::MovesIntoCheck)
    );
}

#[test]
fn scenario_pawn_double_advance_once_only() {
    let mut board = empty_board();
    board[0][0] = Some((Piece::King, Player::White));
    board[7][7] = Some((Piece::King, Player::Black));
    board[1][3] = Some((Piece::Pawn, Player::White));
    let state = state_of(board, Player::White);
    let e = engine();
    let applied = e.apply(&state, &mv((1, 3), (3, 3))).expect("opening double advance is legal");
    assert_eq!(applied.board[1][3], None);
    assert_eq!(applied.board[3][3], Some((Piece::Pawn, Player::White)));
    assert_eq!(applied.turn, Player::Black);
    // Hand the move back to White on the updated board: the pawn has left
    // its starting rank, so another two-square advance is refused.
    let again = state_of(applied.board, Player::White);
    assert_eq!(
        e.validate(&again, &mv((3, 3), (5, 3)), &Player::White),
        Err(MoveError::IllegalPieceMovement)
    );
}

#[test]
fn scenario_bishop_blocked_path_and_capture() {
    let mut board = empty_board();
    board[0][0] = Some((Piece::Bishop, Player::White));
    board[3][3] = Some((Piece::Pawn, Player::Black));
    let state = state_of(board, Player::White);
    let e = engine();
    assert_eq!(
        e.validate(&state, &mv((0, 0), (4, 4)), &Player::White),
        Err(MoveError::IllegalPieceMovement)
    );
    assert_eq!(e.validate(&state, &mv((0, 0), (3, 3)), &Player::White), Ok(()));
}

#[test]
fn back_rank_mate_is_checkmate() {
    let mut board = empty_board();
    board[0][0] = Some((Piece::King, Player::White));
    board[7][7] = Some((Piece::King, Player::Black));
    board[6][6] = Some((Piece::Pawn, Player::Black));
    board[6][7] = Some((Piece::Pawn, Player::Black));
    board[5][0] = Some((Piece::Rook, Player::White));
    let state = state_of(board, Player::White);
    let e = engine();
    let mated = e.apply(&state, &mv((5, 0), (7, 0))).expect("the mating rook move is legal");
    assert_eq!(mated.turn, Player::Black);
    assert_eq!(mated.status, GameStatus::Checkmate);
    // Removing the attacking rook from the mated position leaves a
    // position that is no longer checkmate.
    let mut relieved = mated.board;
    relieved[7][0] = None;
    let reclassified = e.classify(&state_of(relieved, Player::Black));
    assert_ne!(reclassified, GameStatus::Checkmate);
    assert_eq!(reclassified, GameStatus::Ongoing);
}

#[test]
fn terminal_state_rejects_further_moves() {
    let mut board = empty_board();
    board[0][0] = Some((Piece::King, Player::White));
    board[7][7] = Some((Piece::King, Player::Black));
    board[6][6] = Some((Piece::Pawn, Player::Black));
    board[6][7] = Some((Piece::Pawn, Player::Black));
    board[5][0] = Some((Piece::Rook, Player::White));
    let state = state_of(board, Player::White);
    let e = engine();
    let mated = e.apply(&state, &mv((5, 0), (7, 0))).unwrap();
    assert_eq!(
        e.apply(&mated, &mv((6, 6), (5, 6))),
        Err(MoveError::GameAlreadyOver)
    );
}

#[test]
fn stalemate_is_classified() {
    let mut board = empty_board();
    board[7][7] = Some((Piece::King, Player::Black));
    board[5][6] = Some((Piece::Queen, Player::White));
    board[0][0] = Some((Piece::King, Player::White));
    let e = engine();
    assert_eq!(e.classify(&state_of(board, Player::Black)), GameStatus::Stalemate);
}

#[test]
fn out_of_bounds_is_reported_first() {
    let mut board = empty_board();
    board[0][0] = Some((Piece::King, Player::White));
    let state = state_of(board, Player::White);
    let e = engine();
    assert_eq!(
        e.validate(&state, &mv((8, 0), (0, 0)), &Player::White),
        Err(MoveError::OutOfBounds)
    );
    assert_eq!(
        e.validate(&state, &mv((0, 0), (0, 9)), &Player::White),
        Err(MoveError::OutOfBounds)
    );
    assert_eq!(
        e.validate(&state, &mv((255, 255), (200, 3)), &Player::White),
        Err(MoveError::OutOfBounds)
    );
}

#[test]
fn validate_is_pure() {
    let mut board = empty_board();
    board[0][0] = Some((Piece::King, Player::White));
    board[7][0] = Some((Piece::Rook, Player::Black));
    let state = state_of(board, Player::White);
    let e = engine();
    let legal = mv((0, 0), (0, 1));
    let illegal = mv((0, 0), (1, 0));
    let first = e.validate(&state, &legal, &Player::White);
    let second = e.validate(&state, &legal, &Player::White);
    assert_eq!(first, second);
    let first_bad = e.validate(&state, &illegal, &Player::White);
    let second_bad = e.validate(&state, &illegal, &Player::White);
    assert_eq!(first_bad, second_bad);
}

#[test]
fn apply_flips_turn_and_changes_two_cells() {
    let mut board = empty_board();
    board[0][0] = Some((Piece::King, Player::White));
    board[7][7] = Some((Piece::King, Player::Black));
    board[3][3] = Some((Piece::Rook, Player::White));
    let state = state_of(board, Player::White);
    let e = engine();
    let next = e.apply(&state, &mv((3, 3), (3, 6))).expect("open rook move is legal");
    assert_eq!(next.turn, Player::Black);
    assert_eq!(next.players, state.players);
    for r in 0..8usize {
        for c in 0..8usize {
            if (r, c) == (3, 3) {
                assert_eq!(next.board[r][c], None);
            } else if (r, c) == (3, 6) {
                assert_eq!(next.board[r][c], Some((Piece::Rook, Player::White)));
            } else {
                assert_eq!(next.board[r][c], state.board[r][c]);
            }
        }
    }
}

#[test]
fn apply_capture_removes_the_captured_piece() {
    let mut board = empty_board();
    board[0][0] = Some((Piece::King, Player::White));
    board[7][7] = Some((Piece::King, Player::Black));
    board[3][3] = Some((Piece::Rook, Player::White));
    board[3][6] = Some((Piece::Pawn, Player::Black));
    let state = state_of(board, Player::White);
    let e = engine();
    let next = e.apply(&state, &mv((3, 3), (3, 6))).expect("rook capture is legal");
    assert_eq!(next.board[3][3], None);
    assert_eq!(next.board[3][6], Some((Piece::Rook, Player::White)));
}

#[test]
fn null_move_is_rejected() {
    let mut board = empty_board();
    board[2][2] = Some((Piece::Queen, Player::White));
    let state = state_of(board, Player::White);
    let e = engine();
    assert_eq!(
        e.validate(&state, &mv((2, 2), (2, 2)), &Player::White),
        Err(MoveError::NullMove)
    );
}

#[test]
fn empty_source_is_rejected() {
    let state = state_of(empty_board(), Player::White);
    let e = engine();
    assert_eq!(
        e.validate(&state, &mv((4, 4), (4, 5)), &Player::White),
        Err(MoveError::EmptySource)
    );
}

#[test]
fn wrong_owner_and_wrong_turn_are_rejected() {
    let mut board = empty_board();
    board[2][2] = Some((Piece::Rook, Player::White));
    board[5][5] = Some((Piece::Rook, Player::Black));
    let state = state_of(board, Player::White);
    let e = engine();
    // The mover does not own the source piece.
    assert_eq!(
        e.validate(&state, &mv((5, 5), (5, 0)), &Player::White),
        Err(MoveError::NotYourTurn)
    );
    // The mover owns the piece but it is not their turn.
    assert_eq!(
        e.validate(&state, &mv((5, 5), (5, 0)), &Player::Black),
        Err(MoveError::NotYourTurn)
    );
}

#[test]
fn self_capture_is_rejected() {
    let mut board = empty_board();
    board[2][2] = Some((Piece::Rook, Player::White));
    board[2][5] = Some((Piece::Knight, Player::White));
    let state = state_of(board, Player::White);
    let e = engine();
    assert_eq!(
        e.validate(&state, &mv((2, 2), (2, 5)), &Player::White),
        Err(MoveError::IllegalPieceMovement)
    );
}

#[test]
fn knight_moves_and_jumps() {
    let mut board = empty_board();
    board[4][4] = Some((Piece::Knight, Player::White));
    // Surround the knight: it jumps over neighbours.
    board[3][4] = Some((Piece::Pawn, Player::Black));
    board[4][3] = Some((Piece::Pawn, Player::Black));
    board[5][4] = Some((Piece::Pawn, Player::Black));
    board[4][5] = Some((Piece::Pawn, Player::Black));
    let state = state_of(board, Player::White);
    let e = engine();
    assert_eq!(e.validate(&state, &mv((4, 4), (6, 5)), &Player::White), Ok(()));
    assert_eq!(e.validate(&state, &mv((4, 4), (5, 6)), &Player::White), Ok(()));
    assert_eq!(e.validate(&state, &mv((4, 4), (2, 3)), &Player::White), Ok(()));
    assert_eq!(
        e.validate(&state, &mv((4, 4), (6, 6)), &Player::White),
        Err(MoveError::IllegalPieceMovement)
    );
    assert_eq!(
        e.validate(&state, &mv((4, 4), (4, 6)), &Player::White),
        Err(MoveError::IllegalPieceMovement)
    );
}

#[test]
fn pawn_rules() {
    let mut board = empty_board();
    board[1][1] = Some((Piece::Pawn, Player::White));
    board[2][2] = Some((Piece::Knight, Player::Black));
    board[2][0] = Some((Piece::Knight, Player::White));
    board[6][5] = Some((Piece::Pawn, Player::Black));
    let white = state_of(board, Player::White);
    let e = engine();
    // Single advance onto an empty square.
    assert_eq!(e.validate(&white, &mv((1, 1), (2, 1)), &Player::White), Ok(()));
    // Diagonal capture of an opposing piece.
    assert_eq!(e.validate(&white, &mv((1, 1), (2, 2)), &Player::White), Ok(()));
    // Diagonal move onto an own piece is refused.
    assert_eq!(
        e.validate(&white, &mv((1, 1), (2, 0)), &Player::White),
        Err(MoveError::IllegalPieceMovement)
    );
    // Diagonal move onto an empty square is refused.
    assert_eq!(
        e.validate(&white, &mv((1, 1), (0, 2)), &Player::White),
        Err(MoveError::IllegalPieceMovement)
    );
    // Backward advance is refused.
    assert_eq!(
        e.validate(&white, &mv((1, 1), (0, 1)), &Player::White),
        Err(MoveError::IllegalPieceMovement)
    );
    // Black pawns advance toward decreasing ranks, two squares from rank 6.
    let black = state_of(board, Player::Black);
    assert_eq!(e.validate(&black, &mv((6, 5), (5, 5)), &Player::Black), Ok(()));
    assert_eq!(e.validate(&black, &mv((6, 5), (4, 5)), &Player::Black), Ok(()));
    assert_eq!(
        e.validate(&black, &mv((6, 5), (7, 5)), &Player::Black),
        Err(MoveError::IllegalPieceMovement)
    );
}

#[test]
fn pawn_double_advance_is_blocked_by_a_piece_between() {
    let mut board = empty_board();
    board[1][4] = Some((Piece::Pawn, Player::White));
    board[2][4] = Some((Piece::Bishop, Player::Black));
    let state = state_of(board, Player::White);
    let e = engine();
    assert_eq!(
        e.validate(&state, &mv((1, 4), (3, 4)), &Player::White),
        Err(MoveError::IllegalPieceMovement)
    );
    // The straight advance cannot capture either.
    assert_eq!(
        e.validate(&state, &mv((1, 4), (2, 4)), &Player::White),
        Err(MoveError::IllegalPieceMovement)
    );
}

#[test]
fn queen_moves_on_all_three_axes() {
    let mut board = empty_board();
    board[3][3] = Some((Piece::Queen, Player::White));
    let state = state_of(board, Player::White);
    let e = engine();
    assert_eq!(e.validate(&state, &mv((3, 3), (3, 7)), &Player::White), Ok(()));
    assert_eq!(e.validate(&state, &mv((3, 3), (0, 3)), &Player::White), Ok(()));
    assert_eq!(e.validate(&state, &mv((3, 3), (6, 6)), &Player::White), Ok(()));
    assert_eq!(e.validate(&state, &mv((3, 3), (0, 6)), &Player::White), Ok(()));
    assert_eq!(
        e.validate(&state, &mv((3, 3), (5, 4)), &Player::White),
        Err(MoveError::IllegalPieceMovement)
    );
}

#[test]
fn rook_cannot_move_diagonally() {
    let mut board = empty_board();
    board[3][3] = Some((Piece::Rook, Player::White));
    let state = state_of(board, Player::White);
    let e = engine();
    assert_eq!(
        e.validate(&state, &mv((3, 3), (5, 5)), &Player::White),
        Err(MoveError::IllegalPieceMovement)
    );
    assert_eq!(e.validate(&state, &mv((3, 3), (5, 3)), &Player::White), Ok(()));
}

#[test]
fn king_single_steps_only() {
    let mut board = empty_board();
    board[4][4] = Some((Piece::King, Player::White));
    let state = state_of(board, Player::White);
    let e = engine();
    assert_eq!(e.validate(&state, &mv((4, 4), (5, 5)), &Player::White), Ok(()));
    assert_eq!(e.validate(&state, &mv((4, 4), (3, 4)), &Player::White), Ok(()));
    assert_eq!(
        e.validate(&state, &mv((4, 4), (6, 4)), &Player::White),
        Err(MoveError::IllegalPieceMovement)
    );
}

#[test]
fn per_piece_rule_methods() {
    let mut board = empty_board();
    board[0][0] = Some((Piece::Queen, Player::White));
    board[3][3] = Some((Piece::Pawn, Player::Black));
    let state = state_of(board, Player::White);
    let e = engine();
    let white = Player::White;
    assert!(e.check_move_validity_queen(&mv((0, 0), (3, 3)), &white, &state));
    assert!(!e.check_move_validity_queen(&mv((0, 0), (4, 4)), &white, &state));
    assert!(!e.check_move_validity_queen(&mv((0, 0), (2, 1)), &white, &state));
    assert!(e.check_move_validity_rook(&mv((0, 0), (0, 5)), &white, &state));
    assert!(!e.check_move_validity_rook(&mv((0, 0), (2, 2)), &white, &state));
    assert!(e.check_move_validity_bishop(&mv((0, 0), (2, 2)), &white, &state));
    assert!(!e.check_move_validity_bishop(&mv((0, 0), (0, 5)), &white, &state));
    assert!(e.check_move_validity_knight(&mv((0, 0), (1, 2)), &white, &state));
    assert!(!e.check_move_validity_knight(&mv((0, 0), (1, 1)), &white, &state));
    assert!(e.check_move_validity_king(&mv((0, 0), (1, 1)), &white, &state));
    assert!(!e.check_move_validity_king(&mv((0, 0), (2, 2)), &white, &state));
    assert!(e.check_move_validity_pawn(&mv((1, 0), (2, 0)), &white, &state));
    assert!(!e.check_move_validity_pawn(&mv((1, 0), (3, 1)), &white, &state));
}

#[test]
fn check_move_validity_matches_validate() {
    let mut board = empty_board();
    board[0][0] = Some((Piece::King, Player::White));
    board[7][0] = Some((Piece::Rook, Player::Black));
    let state = state_of(board, Player::White);
    let e = engine();
    assert!(e.check_move_validity(&mv((0, 0), (0, 1)), &Player::White, &state));
    assert!(!e.check_move_validity(&mv((0, 0), (1, 0)), &Player::White, &state));
    assert!(!e.check_move_validity(&mv((9, 0), (1, 0)), &Player::White, &state));
}

#[test]
fn path_resolver_by_axis() {
    let mut board = empty_board();
    board[4][2] = Some((Piece::Pawn, Player::Black));
    // Horizontal: same rank, clear and blocked.
    assert!(OhMyChess::is_path_clear(&board, (0, 0), (0, 7), &Direction::Horizontal));
    assert!(!OhMyChess::is_path_clear(&board, (4, 1), (4, 3), &Direction::Horizontal));
    assert!(!OhMyChess::is_path_clear(&board, (4, 0), (4, 5), &Direction::Horizontal));
    // Adjacent squares have no intermediate squares.
    assert!(OhMyChess::is_path_clear(&board, (4, 1), (4, 2), &Direction::Horizontal));
    // Vertical: same file.
    assert!(OhMyChess::is_path_clear(&board, (0, 2), (3, 2), &Direction::Vertical));
    assert!(!OhMyChess::is_path_clear(&board, (0, 2), (7, 2), &Direction::Vertical));
    // Diagonal.
    assert!(OhMyChess::is_path_clear(&board, (0, 0), (3, 3), &Direction::Diagonal));
    assert!(!OhMyChess::is_path_clear(&board, (2, 0), (5, 3), &Direction::Diagonal));
    // The axis constraint itself.
    assert!(!OhMyChess::is_path_clear(&board, (0, 0), (1, 5), &Direction::Horizontal));
    assert!(!OhMyChess::is_path_clear(&board, (0, 0), (5, 1), &Direction::Vertical));
    assert!(!OhMyChess::is_path_clear(&board, (0, 0), (2, 3), &Direction::Diagonal));
}

#[test]
fn moving_a_pinned_piece_is_rejected() {
    let mut board = empty_board();
    board[0][4] = Some((Piece::King, Player::White));
    board[2][4] = Some((Piece::Bishop, Player::White));
    board[6][4] = Some((Piece::Rook, Player::Black));
    let state = state_of(board, Player::White);
    let e = engine();
    // The bishop shields the king from the rook; moving it exposes the king.
    assert_eq!(
        e.validate(&state, &mv((2, 4), (3, 5)), &Player::White),
        Err(MoveError::MovesIntoCheck)
    );
    // Moving the king off the rook's file is fine.
    assert_eq!(e.validate(&state, &mv((0, 4), (0, 3)), &Player::White), Ok(()));
}

#[test]
fn classify_detects_ongoing_game() {
    let mut board = empty_board();
    board[0][0] = Some((Piece::King, Player::White));
    board[7][7] = Some((Piece::King, Player::Black));
    let e = engine();
    assert_eq!(e.classify(&state_of(board, Player::White)), GameStatus::Ongoing);
    assert_eq!(e.classify(&state_of(board, Player::Black)), GameStatus::Ongoing);
}

#[test]
fn engine_configuration_handles() {
    let mut e = OhMyChess::new(42);
    assert_eq!(e.admin(), 42);
    assert_eq!(e.get_url(), String::new());
    e.set_url(String::from("mongodb://localhost:27017"));
    assert_eq!(e.get_url(), String::from("mongodb://localhost:27017"));
}
