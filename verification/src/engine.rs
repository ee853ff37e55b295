//! The move legality checker, state transition engine and terminal-state
//! classifier, exposed through the `OhMyChess` engine type.

use vstd::prelude::*;

use crate::board::AccountId;
use crate::board::Board;
use crate::board::Cell;
use crate::board::ChessMove;
use crate::board::Direction;
use crate::board::GameState;
use crate::board::GameStatus;
use crate::board::MoveError;
use crate::board::Piece;
use crate::board::Player;
use crate::board::at;
use crate::board::board_after;
use crate::board::cell;
use crate::board::grid;
use crate::board::opposite;
use crate::board::opposite_spec;
use crate::board::square_in_bounds;
use crate::rules::axis_ok;
use crate::rules::path_clear;
use crate::rules::path_clear_on;
use crate::rules::piece_geom;
use crate::rules::piece_move_ok;

verus! {

/// The piece on `s` belongs to `p` and its geometric rule reaches `t` on
/// this board.
pub open spec fn attacks_from(g: Seq<Seq<Cell>>, p: Player, s: (u8, u8), t: (u8, u8)) -> bool {
    square_in_bounds(s) && match at(g, s) {
        Some((pc, ow)) => ow == p && piece_move_ok(g, pc, p, s, t),
        None => false,
    }
}

/// Some piece of `p` reaches the square `t` under the geometric movement
/// rules (king safety is ignored, so this test does not recurse).
pub open spec fn attacks(g: Seq<Seq<Cell>>, p: Player, t: (u8, u8)) -> bool {
    exists|s: (u8, u8)| #[trigger] attacks_from(g, p, s, t)
}

/// The square `s` holds a King owned by `p`.
pub open spec fn king_at(g: Seq<Seq<Cell>>, p: Player, s: (u8, u8)) -> bool {
    square_in_bounds(s) && at(g, s) == Some((Piece::King, p))
}

/// A King of `p` is attacked by the opposing player.
pub open spec fn in_check(g: Seq<Seq<Cell>>, p: Player) -> bool {
    exists|s: (u8, u8)| #[trigger] king_at(g, p, s) && attacks(g, opposite_spec(p), s)
}

/// Simulating the move leaves the mover's own King attacked.
pub open spec fn leaves_in_check(
    g: Seq<Seq<Cell>>,
    mover: Player,
    from: (u8, u8),
    to: (u8, u8),
) -> bool {
    in_check(board_after(g, from, to), mover)
}

/// The move is fully legal for `turn` on this board: both squares on the
/// board, not a null move, a piece of `turn` on the source, the piece's
/// geometric rule accepts the move, and the move does not leave `turn`'s
/// own King attacked. The game status is not part of this predicate.
pub open spec fn legal_move(g: Seq<Seq<Cell>>, turn: Player, from: (u8, u8), to: (u8, u8)) -> bool {
    square_in_bounds(from) && square_in_bounds(to) && from != to && match at(g, from) {
        Some((pc, ow)) => ow == turn && piece_move_ok(g, pc, turn, from, to) && !leaves_in_check(
            g,
            turn,
            from,
            to,
        ),
        None => false,
    }
}

/// `turn` has at least one legal move on this board.
pub open spec fn any_legal_move(g: Seq<Seq<Cell>>, turn: Player) -> bool {
    exists|f: (u8, u8), t: (u8, u8)| #[trigger] legal_move(g, turn, f, t)
}

/// The status of a position for the player to move: Ongoing while a legal
/// move exists, otherwise Checkmate when the King is attacked and Stalemate
/// when it is not. Draw is never derived here.
pub open spec fn classify_spec(g: Seq<Seq<Cell>>, turn: Player) -> GameStatus {
    if any_legal_move(g, turn) {
        GameStatus::Ongoing
    } else if in_check(g, turn) {
        GameStatus::Checkmate
    } else {
        GameStatus::Stalemate
    }
}

/// The verdict of the legality checker: the first failing gate decides the
/// error, and a move passing every gate is accepted.
pub open spec fn validate_spec(s: GameState, mv: ChessMove, mover: Player) -> Result<
    (),
    MoveError,
> {
    if !(square_in_bounds(mv.from) && square_in_bounds(mv.to)) {
        Err(MoveError::OutOfBounds)
    } else if !(s.status is Ongoing) {
        Err(MoveError::GameAlreadyOver)
    } else if mv.from == mv.to {
        Err(MoveError::NullMove)
    } else {
        match at(grid(s.board), mv.from) {
            None => Err(MoveError::EmptySource),
            Some((pc, ow)) => if !(ow == mover && mover == s.turn) {
                Err(MoveError::NotYourTurn)
            } else if !piece_move_ok(grid(s.board), pc, mover, mv.from, mv.to) {
                Err(MoveError::IllegalPieceMovement)
            } else if leaves_in_check(grid(s.board), mover, mv.from, mv.to) {
                Err(MoveError::MovesIntoCheck)
            } else {
                Ok(())
            },
        }
    }
}

/// Decides whether some piece of `by` reaches `target` under the geometric
/// movement rules, by scanning every square of the board.
pub(crate) fn square_attacked(board: &Board, by: Player, target: (u8, u8)) -> (res: bool)
    requires
        square_in_bounds(target),
    ensures
        res == attacks(grid(*board), by, target),
{
    let mut r: u8 = 0;
    while r < 8
        invariant
            r <= 8,
            square_in_bounds(target),
            forall|s: (u8, u8)| s.0 < r ==> !#[trigger] attacks_from(grid(*board), by, s, target),
        decreases 8 - r,
    {
        let mut c: u8 = 0;
        while c < 8
            invariant
                r < 8,
                c <= 8,
                square_in_bounds(target),
                forall|s: (u8, u8)|
                    s.0 < r || (s.0 == r && s.1 < c) ==> !#[trigger] attacks_from(
                        grid(*board),
                        by,
                        s,
                        target,
                    ),
            decreases 8 - c,
        {
            match board[r as usize][c as usize] {
                Some((pc, ow)) => {
                    if ow == by {
                        if piece_geom(board, pc, ow, (r, c), target) {
                            proof {
                                assert(attacks_from(grid(*board), by, (r, c), target));
                            }
                            return true;
                        }
                    }
                },
                None => {},
            }
            proof {
                assert(!attacks_from(grid(*board), by, (r, c), target));
            }
            c = c + 1;
        }
        r = r + 1;
    }
    proof {
        assert forall|s: (u8, u8)| !#[trigger] attacks_from(grid(*board), by, s, target) by {
            if s.0 < 8 {
            } else {
                assert(!square_in_bounds(s));
            }
        };
    }
    false
}

/// Decides whether a King of `p` is attacked, by scanning the board for
/// every King owned by `p` and testing each with the attack test.
pub(crate) fn any_king_in_check(board: &Board, p: Player) -> (res: bool)
    ensures
        res == in_check(grid(*board), p),
{
    let opp = opposite(&p);
    let mut r: u8 = 0;
    while r < 8
        invariant
            r <= 8,
            opp == opposite_spec(p),
            forall|s: (u8, u8)|
                s.0 < r ==> !(#[trigger] king_at(grid(*board), p, s) && attacks(
                    grid(*board),
                    opposite_spec(p),
                    s,
                )),
        decreases 8 - r,
    {
        let mut c: u8 = 0;
        while c < 8
            invariant
                r < 8,
                c <= 8,
                opp == opposite_spec(p),
                forall|s: (u8, u8)|
                    s.0 < r || (s.0 == r && s.1 < c) ==> !(#[trigger] king_at(grid(*board), p, s)
                        && attacks(grid(*board), opposite_spec(p), s)),
            decreases 8 - c,
        {
            let is_king = match board[r as usize][c as usize] {
                Some((pc, ow)) => match pc {
                    Piece::King => ow == p,
                    _ => false,
                },
                None => false,
            };
            if is_king {
                if square_attacked(board, opp, (r, c)) {
                    proof {
                        assert(king_at(grid(*board), p, (r, c)));
                    }
                    return true;
                }
            }
            proof {
                assert(!(king_at(grid(*board), p, (r, c)) && attacks(
                    grid(*board),
                    opposite_spec(p),
                    (r, c),
                )));
            }
            c = c + 1;
        }
        r = r + 1;
    }
    proof {
        assert forall|s: (u8, u8)|
            !(#[trigger] king_at(grid(*board), p, s) && attacks(
                grid(*board),
                opposite_spec(p),
                s,
            )) by {
            if s.0 < 8 {
            } else {
                assert(!square_in_bounds(s));
            }
        };
    }
    false
}

/// Produces the board after moving the content of `from` onto `to` on a
/// scratch copy: the destination takes the piece, the source is cleared.
pub(crate) fn apply_to_board(board: &Board, from: (u8, u8), to: (u8, u8)) -> (nb: Board)
    requires
        square_in_bounds(from),
        square_in_bounds(to),
    ensures
        grid(nb) == board_after(grid(*board), from, to),
{
    let mut nb = *board;
    let moved = nb[from.0 as usize][from.1 as usize];
    let mut row_to = nb[to.0 as usize];
    row_to[to.1 as usize] = moved;
    nb[to.0 as usize] = row_to;
    let mut row_from = nb[from.0 as usize];
    row_from[from.1 as usize] = None;
    nb[from.0 as usize] = row_from;
    proof {
        assert(grid(nb) =~~= board_after(grid(*board), from, to));
    }
    nb
}

/// Decides whether the move is fully legal for `turn` on this board,
/// ignoring the game status.
pub(crate) fn move_legal_on(board: &Board, turn: Player, from: (u8, u8), to: (u8, u8)) -> (res:
    bool)
    ensures
        res == legal_move(grid(*board), turn, from, to),
{
    if !(from.0 <= 7 && from.1 <= 7 && to.0 <= 7 && to.1 <= 7) {
        return false;
    }
    if from.0 == to.0 && from.1 == to.1 {
        return false;
    }
    match cell(board, from) {
        None => false,
        Some((pc, ow)) => {
            if !(ow == turn) {
                return false;
            }
            if !piece_geom(board, pc, turn, from, to) {
                return false;
            }
            let nb = apply_to_board(board, from, to);
            !any_king_in_check(&nb, turn)
        },
    }
}

/// Decides whether `turn` has a legal move out of the square `from`.
pub(crate) fn any_move_from(board: &Board, turn: Player, from: (u8, u8)) -> (res: bool)
    ensures
        res == exists|t: (u8, u8)| #[trigger] legal_move(grid(*board), turn, from, t),
{
    let mut r: u8 = 0;
    while r < 8
        invariant
            r <= 8,
            forall|t: (u8, u8)| t.0 < r ==> !#[trigger] legal_move(grid(*board), turn, from, t),
        decreases 8 - r,
    {
        let mut c: u8 = 0;
        while c < 8
            invariant
                r < 8,
                c <= 8,
                forall|t: (u8, u8)|
                    t.0 < r || (t.0 == r && t.1 < c) ==> !#[trigger] legal_move(
                        grid(*board),
                        turn,
                        from,
                        t,
                    ),
            decreases 8 - c,
        {
            if move_legal_on(board, turn, from, (r, c)) {
                return true;
            }
            c = c + 1;
        }
        r = r + 1;
    }
    proof {
        assert forall|t: (u8, u8)| !#[trigger] legal_move(grid(*board), turn, from, t) by {
            if t.0 < 8 {
            } else {
                assert(!square_in_bounds(t));
            }
        };
    }
    false
}

/// Decides whether `turn` has any legal move at all on this board, by a
/// brute-force scan over all source and destination squares.
pub(crate) fn has_any_legal_move(board: &Board, turn: Player) -> (res: bool)
    ensures
        res == any_legal_move(grid(*board), turn),
{
    let mut r: u8 = 0;
    while r < 8
        invariant
            r <= 8,
            forall|f: (u8, u8), t: (u8, u8)|
                f.0 < r ==> !#[trigger] legal_move(grid(*board), turn, f, t),
        decreases 8 - r,
    {
        let mut c: u8 = 0;
        while c < 8
            invariant
                r < 8,
                c <= 8,
                forall|f: (u8, u8), t: (u8, u8)|
                    f.0 < r || (f.0 == r && f.1 < c) ==> !#[trigger] legal_move(
                        grid(*board),
                        turn,
                        f,
                        t,
                    ),
            decreases 8 - c,
        {
            if any_move_from(board, turn, (r, c)) {
                proof {
                    let tw = choose|t: (u8, u8)| legal_move(grid(*board), turn, (r, c), t);
                    assert(legal_move(grid(*board), turn, (r, c), tw));
                }
                return true;
            }
            c = c + 1;
        }
        r = r + 1;
    }
    proof {
        assert forall|f: (u8, u8), t: (u8, u8)| !#[trigger] legal_move(
            grid(*board),
            turn,
            f,
            t,
        ) by {
            if f.0 < 8 {
            } else {
                assert(!square_in_bounds(f));
            }
        };
    }
    false
}

/// Computes the status of a board for the player to move.
pub(crate) fn classify_board(board: &Board, turn: Player) -> (st: GameStatus)
    ensures
        st == classify_spec(grid(*board), turn),
{
    if has_any_legal_move(board, turn) {
        GameStatus::Ongoing
    } else if any_king_in_check(board, turn) {
        GameStatus::Checkmate
    } else {
        GameStatus::Stalemate
    }
}

/// The rules engine. It also carries the host-facing configuration of a
/// deployment: an administrator handle and a service URL, both opaque to
/// the rules themselves.
pub struct OhMyChess {
    pub admin: AccountId,
    pub url: String,
}

impl OhMyChess {
    /// Creates an engine owned by the given administrator, with an empty
    /// service URL.
    pub fn new(admin: AccountId) -> (s: Self)
        ensures
            s.admin == admin,
            s.url@ == Seq::<char>::empty(),
    {
        OhMyChess { admin, url: String::new() }
    }

    /// Returns the stored service URL.
    pub fn get_url(&self) -> (r: String)
        ensures
            r@ == self.url@,
    {
        self.url.clone()
    }

    /// Replaces the stored service URL.
    pub fn set_url(&mut self, url: String)
        ensures
            final(self).url@ == url@,
            final(self).admin == old(self).admin,
    {
        self.url = url;
    }

    /// Returns the administrator handle the engine was created with.
    pub fn admin(&self) -> (r: AccountId)
        ensures
            r == self.admin,
    {
        self.admin
    }

    /// The legality checker: runs the gates in order and reports the first
    /// failure, or accepts the move. Pure: the game state is not changed.
    pub fn validate(&self, state: &GameState, chess_move: &ChessMove, mover: &Player) -> (r: Result<
        (),
        MoveError,
    >)
        ensures
            r == validate_spec(*state, *chess_move, *mover),
    {
        let from = chess_move.from;
        let to = chess_move.to;
        if !(from.0 <= 7 && from.1 <= 7 && to.0 <= 7 && to.1 <= 7) {
            return Err(MoveError::OutOfBounds);
        }
        if !(state.status == GameStatus::Ongoing) {
            return Err(MoveError::GameAlreadyOver);
        }
        if from.0 == to.0 && from.1 == to.1 {
            return Err(MoveError::NullMove);
        }
        match cell(&state.board, from) {
            None => Err(MoveError::EmptySource),
            Some((pc, ow)) => {
                if !(ow == *mover && *mover == state.turn) {
                    return Err(MoveError::NotYourTurn);
                }
                if !piece_geom(&state.board, pc, *mover, from, to) {
                    return Err(MoveError::IllegalPieceMovement);
                }
                let nb = apply_to_board(&state.board, from, to);
                if any_king_in_check(&nb, *mover) {
                    return Err(MoveError::MovesIntoCheck);
                }
                Ok(())
            },
        }
    }

    /// Reports whether the proposed move would be accepted by the legality
    /// checker for this mover.
    pub fn check_move_validity(
        &self,
        chess_move: &ChessMove,
        player_to_move: &Player,
        game_state: &GameState,
    ) -> (r: bool)
        ensures
            r == (validate_spec(*game_state, *chess_move, *player_to_move) is Ok),
    {
        match self.validate(game_state, chess_move, player_to_move) {
            Ok(()) => true,
            Err(_) => false,
        }
    }

    /// The state transition engine: validates the move for the player on
    /// turn, and on success returns the new game state with the piece moved,
    /// the turn flipped and the status recomputed by the classifier. On
    /// failure the error of the failing gate is returned and nothing
    /// changes.
    pub fn apply(&self, state: &GameState, chess_move: &ChessMove) -> (r: Result<
        GameState,
        MoveError,
    >)
        ensures
            (match validate_spec(*state, *chess_move, state.turn) {
                Err(e) => r == Err::<GameState, MoveError>(e),
                Ok(_) => match r {
                    Ok(ns) => {
                        &&& grid(ns.board) == board_after(
                            grid(state.board),
                            chess_move.from,
                            chess_move.to,
                        )
                        &&& ns.turn == opposite_spec(state.turn)
                        &&& ns.players == state.players
                        &&& ns.status == classify_spec(grid(ns.board), ns.turn)
                    },
                    Err(_) => false,
                },
            }),
    {
        let turn = state.turn;
        match self.validate(state, chess_move, &turn) {
            Err(e) => Err(e),
            Ok(()) => {
                let nb = apply_to_board(&state.board, chess_move.from, chess_move.to);
                let next = opposite(&state.turn);
                let status = classify_board(&nb, next);
                Ok(GameState { board: nb, turn: next, players: state.players, status })
            },
        }
    }

    /// The terminal-state classifier on a full game state: the status of the
    /// board for the player on turn. Usable standalone, for example to
    /// re-derive the status of a persisted state.
    pub fn classify(&self, state: &GameState) -> (st: GameStatus)
        ensures
            st == classify_spec(grid(state.board), state.turn),
    {
        classify_board(&state.board, state.turn)
    }

    /// The King's movement rule for the proposed move.
    pub fn check_move_validity_king(
        &self,
        chess_move: &ChessMove,
        player_to_move: &Player,
        game_state: &GameState,
    ) -> (r: bool)
        requires
            square_in_bounds(chess_move.from),
            square_in_bounds(chess_move.to),
        ensures
            r == piece_move_ok(
                grid(game_state.board),
                Piece::King,
                *player_to_move,
                chess_move.from,
                chess_move.to,
            ),
    {
        piece_geom(&game_state.board, Piece::King, *player_to_move, chess_move.from, chess_move.to)
    }

    /// The Queen's movement rule for the proposed move.
    pub fn check_move_validity_queen(
        &self,
        chess_move: &ChessMove,
        player_to_move: &Player,
        game_state: &GameState,
    ) -> (r: bool)
        requires
            square_in_bounds(chess_move.from),
            square_in_bounds(chess_move.to),
        ensures
            r == piece_move_ok(
                grid(game_state.board),
                Piece::Queen,
                *player_to_move,
                chess_move.from,
                chess_move.to,
            ),
    {
        piece_geom(&game_state.board, Piece::Queen, *player_to_move, chess_move.from, chess_move.to)
    }

    /// The Rook's movement rule for the proposed move.
    pub fn check_move_validity_rook(
        &self,
        chess_move: &ChessMove,
        player_to_move: &Player,
        game_state: &GameState,
    ) -> (r: bool)
        requires
            square_in_bounds(chess_move.from),
            square_in_bounds(chess_move.to),
        ensures
            r == piece_move_ok(
                grid(game_state.board),
                Piece::Rook,
                *player_to_move,
                chess_move.from,
                chess_move.to,
            ),
    {
        piece_geom(&game_state.board, Piece::Rook, *player_to_move, chess_move.from, chess_move.to)
    }

    /// The Bishop's movement rule for the proposed move.
    pub fn check_move_validity_bishop(
        &self,
        chess_move: &ChessMove,
        player_to_move: &Player,
        game_state: &GameState,
    ) -> (r: bool)
        requires
            square_in_bounds(chess_move.from),
            square_in_bounds(chess_move.to),
        ensures
            r == piece_move_ok(
                grid(game_state.board),
                Piece::Bishop,
                *player_to_move,
                chess_move.from,
                chess_move.to,
            ),
    {
        piece_geom(
            &game_state.board,
            Piece::Bishop,
            *player_to_move,
            chess_move.from,
            chess_move.to,
        )
    }

    /// The Knight's movement rule for the proposed move.
    pub fn check_move_validity_knight(
        &self,
        chess_move: &ChessMove,
        player_to_move: &Player,
        game_state: &GameState,
    ) -> (r: bool)
        requires
            square_in_bounds(chess_move.from),
            square_in_bounds(chess_move.to),
        ensures
            r == piece_move_ok(
                grid(game_state.board),
                Piece::Knight,
                *player_to_move,
                chess_move.from,
                chess_move.to,
            ),
    {
        piece_geom(
            &game_state.board,
            Piece::Knight,
            *player_to_move,
            chess_move.from,
            chess_move.to,
        )
    }

    /// The Pawn's movement rule for the proposed move.
    pub fn check_move_validity_pawn(
        &self,
        chess_move: &ChessMove,
        player_to_move: &Player,
        game_state: &GameState,
    ) -> (r: bool)
        requires
            square_in_bounds(chess_move.from),
            square_in_bounds(chess_move.to),
        ensures
            r == piece_move_ok(
                grid(game_state.board),
                Piece::Pawn,
                *player_to_move,
                chess_move.from,
                chess_move.to,
            ),
    {
        piece_geom(&game_state.board, Piece::Pawn, *player_to_move, chess_move.from, chess_move.to)
    }

    /// The path resolver: the move lies on the given axis and every square
    /// strictly between source and destination is empty.
    pub fn is_path_clear(
        board: &Board,
        from: (u8, u8),
        to: (u8, u8),
        direction: &Direction,
    ) -> (r: bool)
        requires
            square_in_bounds(from),
            square_in_bounds(to),
        ensures
            r == (axis_ok(from, to, *direction) && path_clear(grid(*board), from, to)),
    {
        let aligned = match direction {
            Direction::Horizontal => from.0 == to.0,
            Direction::Vertical => from.1 == to.1,
            Direction::Diagonal => {
                let dr = if from.0 >= to.0 {
                    from.0 - to.0
                } else {
                    to.0 - from.0
                };
                let dc = if from.1 >= to.1 {
                    from.1 - to.1
                } else {
                    to.1 - from.1
                };
                dr == dc
            },
        };
        if !aligned {
            return false;
        }
        path_clear_on(board, from, to)
    }
}

} // verus!
