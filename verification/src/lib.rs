//! A chess rules engine: board model, per-piece movement rules, move
//! legality checking (including king safety), move application, and
//! classification of the resulting position as ongoing, checkmate or
//! stalemate.
//!
//! The engine is pure: it never performs I/O and never retains state across
//! calls. A host owns persistence and player identity and calls in with a
//! `GameState`, a `ChessMove` and the identity of the mover.

pub mod board;
pub mod engine;
pub mod laws;
pub mod rules;

pub use board::AccountId;
pub use board::Board;
pub use board::Cell;
pub use board::ChessMove;
pub use board::Direction;
pub use board::GameState;
pub use board::GameStatus;
pub use board::MoveError;
pub use board::Piece;
pub use board::Player;
pub use engine::OhMyChess;
