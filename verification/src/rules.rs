//! Geometric movement rules: the path resolver for sliding pieces and one
//! rule per piece kind. These rules decide geometric legality only; king
//! safety is the legality checker's job.

use vstd::prelude::*;

use crate::board::Board;
use crate::board::Cell;
use crate::board::Direction;
use crate::board::Piece;
use crate::board::Player;
use crate::board::at;
use crate::board::grid;
use crate::board::square_in_bounds;

verus! {

/// The absolute value of an integer.
pub open spec fn abs_i(x: int) -> int {
    if x >= 0 {
        x
    } else {
        -x
    }
}

/// The absolute difference of two coordinates.
pub open spec fn abs_diff(a: u8, b: u8) -> int {
    abs_i(a - b)
}

/// `x` lies strictly between `a` and `b` (in either order).
pub open spec fn strictly_between(a: int, x: int, b: int) -> bool {
    (a < x && x < b) || (b < x && x < a)
}

/// The square `(r, c)` lies strictly between `from` and `to` on a
/// horizontal, vertical or diagonal line segment. For a pair of squares on
/// no such common line, no square is on the open path.
pub open spec fn on_open_path(from: (u8, u8), to: (u8, u8), r: u8, c: u8) -> bool {
    let fr = from.0 as int;
    let fc = from.1 as int;
    let tr = to.0 as int;
    let tc = to.1 as int;
    let rr = r as int;
    let cc = c as int;
    if fr == tr && fc != tc {
        rr == fr && strictly_between(fc, cc, tc)
    } else if fc == tc && fr != tr {
        cc == fc && strictly_between(fr, rr, tr)
    } else if fr != tr && abs_diff(from.0, to.0) == abs_diff(from.1, to.1) {
        &&& abs_i(rr - fr) == abs_i(cc - fc)
        &&& abs_i(rr - tr) == abs_i(cc - tc)
        &&& strictly_between(fr, rr, tr)
    } else {
        false
    }
}

/// Every square strictly between `from` and `to` is empty. This is vacuously
/// true for adjacent squares.
pub open spec fn path_clear(g: Seq<Seq<Cell>>, from: (u8, u8), to: (u8, u8)) -> bool {
    forall|r: u8, c: u8| #[trigger] on_open_path(from, to, r, c) ==> at(g, (r, c)) is None
}

/// The axis constraint of the path resolver: horizontal moves share a rank,
/// vertical moves share a file, diagonal moves have equal absolute deltas.
pub open spec fn axis_ok(from: (u8, u8), to: (u8, u8), d: Direction) -> bool {
    match d {
        Direction::Horizontal => from.0 == to.0,
        Direction::Vertical => from.1 == to.1,
        Direction::Diagonal => abs_diff(from.0, to.0) == abs_diff(from.1, to.1),
    }
}

/// The destination square is empty or holds an opposing piece (no
/// self-capture).
pub open spec fn dest_not_own(g: Seq<Seq<Cell>>, owner: Player, to: (u8, u8)) -> bool {
    match at(g, to) {
        Some((_, ow)) => ow != owner,
        None => true,
    }
}

/// King geometry: at most one step on each axis, and not a null move.
pub open spec fn king_move_ok(from: (u8, u8), to: (u8, u8)) -> bool {
    abs_diff(from.0, to.0) <= 1 && abs_diff(from.1, to.1) <= 1 && from != to
}

/// Knight geometry: the absolute deltas are 1 and 2 in some order.
pub open spec fn knight_move_ok(from: (u8, u8), to: (u8, u8)) -> bool {
    (abs_diff(from.0, to.0) == 1 && abs_diff(from.1, to.1) == 2) || (abs_diff(from.0, to.0) == 2
        && abs_diff(from.1, to.1) == 1)
}

/// Rook geometry: purely horizontal or purely vertical, with a clear path.
pub open spec fn rook_move_ok(g: Seq<Seq<Cell>>, from: (u8, u8), to: (u8, u8)) -> bool {
    (from.0 == to.0 || from.1 == to.1) && path_clear(g, from, to)
}

/// Bishop geometry: purely diagonal, with a clear path.
pub open spec fn bishop_move_ok(g: Seq<Seq<Cell>>, from: (u8, u8), to: (u8, u8)) -> bool {
    abs_diff(from.0, to.0) == abs_diff(from.1, to.1) && path_clear(g, from, to)
}

/// Queen geometry: a rook move or a bishop move.
pub open spec fn queen_move_ok(g: Seq<Seq<Cell>>, from: (u8, u8), to: (u8, u8)) -> bool {
    rook_move_ok(g, from, to) || bishop_move_ok(g, from, to)
}

/// The rank a pawn of this owner advances toward: White toward increasing
/// ranks, Black toward decreasing ranks.
pub open spec fn pawn_dir(owner: Player) -> int {
    match owner {
        Player::White => 1,
        Player::Black => -1,
    }
}

/// The starting rank of this owner's pawns.
pub open spec fn pawn_start_rank(owner: Player) -> int {
    match owner {
        Player::White => 1,
        Player::Black => 6,
    }
}

/// Pawn geometry: a one-square advance onto an empty square, a two-square
/// advance from the starting rank across an empty square onto an empty
/// square, or a one-square diagonal capture of an opposing piece.
pub open spec fn pawn_move_ok(g: Seq<Seq<Cell>>, owner: Player, from: (u8, u8), to: (u8, u8)) -> bool {
    let d = pawn_dir(owner);
    ||| (to.0 as int == from.0 as int + d && to.1 == from.1 && at(g, to) is None)
    ||| (from.0 as int == pawn_start_rank(owner) && to.0 as int == from.0 as int + 2 * d
        && to.1 == from.1 && at(g, (((from.0 as int + d) as u8), from.1)) is None
        && at(g, to) is None)
    ||| (to.0 as int == from.0 as int + d && abs_diff(from.1, to.1) == 1 && (match at(g, to) {
        Some((_, ow)) => ow != owner,
        None => false,
    }))
}

/// The geometric rule of one piece kind, together with the shared demands
/// that the move is not null and does not capture the mover's own piece.
/// King safety is deliberately not part of this predicate.
pub open spec fn piece_move_ok(
    g: Seq<Seq<Cell>>,
    pc: Piece,
    owner: Player,
    from: (u8, u8),
    to: (u8, u8),
) -> bool {
    from != to && dest_not_own(g, owner, to) && match pc {
        Piece::Pawn => pawn_move_ok(g, owner, from, to),
        Piece::Knight => knight_move_ok(from, to),
        Piece::Bishop => bishop_move_ok(g, from, to),
        Piece::Rook => rook_move_ok(g, from, to),
        Piece::Queen => queen_move_ok(g, from, to),
        Piece::King => king_move_ok(from, to),
    }
}

/// A square on the open path between two squares of the board is itself on
/// the board.
proof fn lemma_on_path_bounds(from: (u8, u8), to: (u8, u8), r: u8, c: u8)
    requires
        square_in_bounds(from),
        square_in_bounds(to),
        on_open_path(from, to, r, c),
    ensures
        r <= 7 && c <= 7,
{
}

/// Decides whether `(r, c)` lies strictly between `from` and `to` on a
/// common line.
fn on_path_at(from: (u8, u8), to: (u8, u8), r: u8, c: u8) -> (b: bool)
    ensures
        b == on_open_path(from, to, r, c),
{
    let fr = from.0 as i32;
    let fc = from.1 as i32;
    let tr = to.0 as i32;
    let tc = to.1 as i32;
    let rr = r as i32;
    let cc = c as i32;
    if fr == tr && fc != tc {
        rr == fr && ((fc < cc && cc < tc) || (tc < cc && cc < fc))
    } else if fc == tc && fr != tr {
        cc == fc && ((fr < rr && rr < tr) || (tr < rr && rr < fr))
    } else if fr != tr && abs32(fr - tr) == abs32(fc - tc) {
        abs32(rr - fr) == abs32(cc - fc) && abs32(rr - tr) == abs32(cc - tc) && ((fr < rr && rr
            < tr) || (tr < rr && rr < fr))
    } else {
        false
    }
}

/// The absolute value of a small signed integer.
fn abs32(x: i32) -> (r: i32)
    requires
        -1000 <= x <= 1000,
    ensures
        r == abs_i(x as int),
{
    if x >= 0 {
        x
    } else {
        -x
    }
}

/// Decides whether every square strictly between `from` and `to` is empty,
/// by scanning the whole board for an occupied square on the open path.
pub(crate) fn path_clear_on(board: &Board, from: (u8, u8), to: (u8, u8)) -> (res: bool)
    requires
        square_in_bounds(from),
        square_in_bounds(to),
    ensures
        res == path_clear(grid(*board), from, to),
{
    let mut r: u8 = 0;
    while r < 8
        invariant
            r <= 8,
            square_in_bounds(from),
            square_in_bounds(to),
            forall|i: u8, j: u8|
                i < r && #[trigger] on_open_path(from, to, i, j) ==> at(grid(*board), (i, j))
                    is None,
        decreases 8 - r,
    {
        let mut c: u8 = 0;
        while c < 8
            invariant
                r < 8,
                c <= 8,
                square_in_bounds(from),
                square_in_bounds(to),
                forall|i: u8, j: u8|
                    (i < r || (i == r && j < c)) && #[trigger] on_open_path(from, to, i, j) ==> at(
                        grid(*board),
                        (i, j),
                    ) is None,
            decreases 8 - c,
        {
            if on_path_at(from, to, r, c) {
                if board[r as usize][c as usize].is_some() {
                    proof {
                        assert(at(grid(*board), (r, c)) is Some);
                        assert(!path_clear(grid(*board), from, to));
                    }
                    return false;
                }
            }
            c = c + 1;
        }
        r = r + 1;
    }
    proof {
        assert forall|i: u8, j: u8| #[trigger]
            on_open_path(from, to, i, j) implies at(grid(*board), (i, j)) is None by {
            lemma_on_path_bounds(from, to, i, j);
        };
    }
    true
}

/// Decides the King's geometric rule.
fn king_geom(from: (u8, u8), to: (u8, u8)) -> (res: bool)
    ensures
        res == king_move_ok(from, to),
{
    let dr = abs32(from.0 as i32 - to.0 as i32);
    let dc = abs32(from.1 as i32 - to.1 as i32);
    dr <= 1 && dc <= 1 && !(from.0 == to.0 && from.1 == to.1)
}

/// Decides the Knight's geometric rule.
fn knight_geom(from: (u8, u8), to: (u8, u8)) -> (res: bool)
    ensures
        res == knight_move_ok(from, to),
{
    let dr = abs32(from.0 as i32 - to.0 as i32);
    let dc = abs32(from.1 as i32 - to.1 as i32);
    (dr == 1 && dc == 2) || (dr == 2 && dc == 1)
}

/// Decides the Pawn's geometric rule.
fn pawn_geom(board: &Board, owner: Player, from: (u8, u8), to: (u8, u8)) -> (res: bool)
    requires
        square_in_bounds(from),
        square_in_bounds(to),
    ensures
        res == pawn_move_ok(grid(*board), owner, from, to),
{
    let d: i32 = match owner {
        Player::White => 1,
        Player::Black => -1,
    };
    let start: i32 = match owner {
        Player::White => 1,
        Player::Black => 6,
    };
    let fr = from.0 as i32;
    let fc = from.1 as i32;
    let tr = to.0 as i32;
    let tc = to.1 as i32;
    let dest = board[to.0 as usize][to.1 as usize];
    let single = tr == fr + d && tc == fc && dest.is_none();
    let double = fr == start && tr == fr + 2 * d && tc == fc && dest.is_none() && board[(fr
        + d) as usize][to.1 as usize].is_none();
    let capture = tr == fr + d && abs32(fc - tc) == 1 && (match dest {
        Some((_, ow)) => ow != owner,
        None => false,
    });
    single || double || capture
}

/// Decides the geometric rule of the given piece kind, including the shared
/// rejection of null moves and self-captures.
pub(crate) fn piece_geom(board: &Board, pc: Piece, owner: Player, from: (u8, u8), to: (u8, u8)) -> (res:
    bool)
    requires
        square_in_bounds(from),
        square_in_bounds(to),
    ensures
        res == piece_move_ok(grid(*board), pc, owner, from, to),
{
    if from.0 == to.0 && from.1 == to.1 {
        return false;
    }
    let own_dest = match board[to.0 as usize][to.1 as usize] {
        Some((_, ow)) => ow == owner,
        None => false,
    };
    if own_dest {
        return false;
    }
    match pc {
        Piece::Pawn => pawn_geom(board, owner, from, to),
        Piece::Knight => knight_geom(from, to),
        Piece::Bishop => {
            let dr = abs32(from.0 as i32 - to.0 as i32);
            let dc = abs32(from.1 as i32 - to.1 as i32);
            dr == dc && path_clear_on(board, from, to)
        },
        Piece::Rook => {
            (from.0 == to.0 || from.1 == to.1) && path_clear_on(board, from, to)
        },
        Piece::Queen => {
            let dr = abs32(from.0 as i32 - to.0 as i32);
            let dc = abs32(from.1 as i32 - to.1 as i32);
            (from.0 == to.0 || from.1 == to.1 || dr == dc) && path_clear_on(board, from, to)
        },
        Piece::King => king_geom(from, to),
    }
}

} // verus!
