//! The board model: squares, pieces, players, game state, and the
//! mathematical view of a board as a sequence of ranks.

use vstd::prelude::*;

verus! {

/// Opaque handle naming an external account. The host decides what a handle
/// means; the engine only compares handles for equality.
pub type AccountId = u64;

/// The kind of a chess piece.
#[derive(Clone, Copy, Debug, PartialEq, Eq, Structural)]
pub enum Piece {
    Pawn,
    Knight,
    Bishop,
    Rook,
    Queen,
    King,
}

/// A side of the game, used both as the owner of a piece and as the turn.
#[derive(Clone, Copy, Debug, PartialEq, Eq, Structural)]
pub enum Player {
    Black,
    White,
}

/// The status of a game. `Draw` is never derived by the engine itself; it is
/// reserved for host-side conditions such as an agreed draw.
#[derive(Clone, Copy, Debug, PartialEq, Eq, Structural)]
pub enum GameStatus {
    Ongoing,
    Checkmate,
    Stalemate,
    Draw,
}

/// The axis of a sliding move.
#[derive(Clone, Copy, Debug, PartialEq, Eq, Structural)]
pub enum Direction {
    Horizontal,
    Vertical,
    Diagonal,
}

/// Why a proposed move was rejected. All kinds are non-fatal: the game state
/// is left unchanged and the host may surface the kind to the player.
#[derive(Clone, Copy, Debug, PartialEq, Eq, Structural)]
pub enum MoveError {
    /// A coordinate of the move lies outside the board.
    OutOfBounds,
    /// The source and destination squares are the same.
    NullMove,
    /// There is no piece on the source square.
    EmptySource,
    /// The mover does not own the source piece, or it is not their turn.
    NotYourTurn,
    /// The move fails the piece's geometric rule (including self-capture
    /// and blocked sliding paths).
    IllegalPieceMovement,
    /// The move is geometrically legal but leaves the mover's own King
    /// attacked.
    MovesIntoCheck,
    /// The game has already reached a terminal status.
    GameAlreadyOver,
}

/// One board cell: empty, or a piece together with its owner.
pub type Cell = Option<(Piece, Player)>;

/// An 8x8 grid of cells, indexed board[rank][file].
pub type Board = [[Cell; 8]; 8];

/// A proposed move: source and destination squares, each `(rank, file)`.
#[derive(Clone, Copy, Debug)]
pub struct ChessMove {
    pub from: (u8, u8),
    pub to: (u8, u8),
}

/// A whole game as the host persists it: the board, whose turn it is, the
/// account handles of the two players (White first), and the game status.
#[derive(Clone, Copy, Debug, PartialEq, Eq)]
pub struct GameState {
    pub board: Board,
    pub turn: Player,
    pub players: (AccountId, AccountId),
    pub status: GameStatus,
}

/// A square is on the board when both coordinates are at most 7.
pub open spec fn square_in_bounds(s: (u8, u8)) -> bool {
    s.0 <= 7 && s.1 <= 7
}

/// The mathematical view of a board: a sequence of 8 ranks, each a sequence
/// of 8 cells.
pub open spec fn grid(b: Board) -> Seq<Seq<Cell>> {
    Seq::new(8, |r: int| Seq::new(8, |c: int| b[r][c]))
}

/// The cell of a board view at a square.
pub open spec fn at(g: Seq<Seq<Cell>>, s: (u8, u8)) -> Cell {
    g[s.0 as int][s.1 as int]
}

/// The board view with one cell replaced.
pub open spec fn put(g: Seq<Seq<Cell>>, s: (u8, u8), v: Cell) -> Seq<Seq<Cell>> {
    g.update(s.0 as int, g[s.0 as int].update(s.1 as int, v))
}

/// The board view after moving the content of `from` onto `to`: the
/// destination takes the moved piece (capturing whatever stood there) and
/// the source is cleared.
pub open spec fn board_after(g: Seq<Seq<Cell>>, from: (u8, u8), to: (u8, u8)) -> Seq<Seq<Cell>> {
    put(put(g, to, at(g, from)), from, None)
}

/// The other player.
pub open spec fn opposite_spec(p: Player) -> Player {
    match p {
        Player::White => Player::Black,
        Player::Black => Player::White,
    }
}

/// Returns the other player.
pub fn opposite(p: &Player) -> (r: Player)
    ensures
        r == opposite_spec(*p),
{
    match p {
        Player::White => Player::Black,
        Player::Black => Player::White,
    }
}

/// Reads one cell of a board.
pub fn cell(board: &Board, s: (u8, u8)) -> (r: Cell)
    requires
        square_in_bounds(s),
    ensures
        r == at(grid(*board), s),
{
    board[s.0 as usize][s.1 as usize]
}

} // verus!
