//! Laws of the engine, stated and proved against the same spec functions
//! the executable contracts use.

use vstd::prelude::*;

use crate::board::Cell;
use crate::board::ChessMove;
use crate::board::GameState;
use crate::board::GameStatus;
use crate::board::MoveError;
use crate::board::Player;
use crate::board::at;
use crate::board::board_after;
use crate::board::grid;
use crate::board::square_in_bounds;
use crate::engine::any_legal_move;
use crate::engine::classify_spec;
use crate::engine::in_check;
use crate::engine::validate_spec;

verus! {

/// A move with a coordinate off the board is rejected as `OutOfBounds`, on
/// every game state and for every mover — in particular it is never
/// reported as `IllegalPieceMovement`.
pub proof fn lemma_out_of_bounds_rejected(s: GameState, mv: ChessMove, mover: Player)
    requires
        !square_in_bounds(mv.from) || !square_in_bounds(mv.to),
    ensures
        validate_spec(s, mv, mover) == Err::<(), MoveError>(MoveError::OutOfBounds),
{
}

/// The legality checker is pure: its verdict is a function of the game
/// state, the move and the mover alone, so repeated calls on the same
/// inputs — with no `apply` in between — always agree. Any two results
/// that meet `validate`'s contract are equal.
pub proof fn lemma_validate_deterministic(
    s: GameState,
    mv: ChessMove,
    mover: Player,
    r1: Result<(), MoveError>,
    r2: Result<(), MoveError>,
)
    requires
        r1 == validate_spec(s, mv, mover),
        r2 == validate_spec(s, mv, mover),
    ensures
        r1 == r2,
{
}

/// A successfully validated move never leaves the mover's own King
/// attacked on the resulting board: the king-safety gate is sound.
pub proof fn lemma_king_safety(s: GameState, mv: ChessMove)
    requires
        validate_spec(s, mv, s.turn) is Ok,
    ensures
        !in_check(board_after(grid(s.board), mv.from, mv.to), s.turn),
{
}

/// Applying a move changes exactly the two cells of the move: the
/// destination takes the piece that stood on the source, the source is
/// cleared, and every other square keeps its content.
pub proof fn lemma_apply_board_delta(g: Seq<Seq<Cell>>, from: (u8, u8), to: (u8, u8))
    requires
        g.len() == 8,
        forall|r: int| 0 <= r < 8 ==> (#[trigger] g[r]).len() == 8,
        square_in_bounds(from),
        square_in_bounds(to),
        from != to,
    ensures
        at(board_after(g, from, to), to) == at(g, from),
        at(board_after(g, from, to), from) is None,
        forall|s: (u8, u8)|
            square_in_bounds(s) && s != from && s != to ==> #[trigger] at(
                board_after(g, from, to),
                s,
            ) == at(g, s),
{
}

/// A position whose player to move is in check and has no legal reply is
/// classified as Checkmate.
pub proof fn lemma_checkmate_classification(g: Seq<Seq<Cell>>, turn: Player)
    requires
        in_check(g, turn),
        !any_legal_move(g, turn),
    ensures
        classify_spec(g, turn) == GameStatus::Checkmate,
{
}

/// A position whose player to move is not in check — for example one from
/// which every attacker of the King was removed — is never classified as
/// Checkmate: it is Ongoing or Stalemate.
pub proof fn lemma_no_check_never_checkmate(g: Seq<Seq<Cell>>, turn: Player)
    requires
        !in_check(g, turn),
    ensures
        classify_spec(g, turn) != GameStatus::Checkmate,
{
}

} // verus!
