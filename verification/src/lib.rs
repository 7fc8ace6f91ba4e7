//! A playing engine for 8x8 American (English) draughts.
//!
//! The position lives in a 32-bit packed bitboard; legal plies come out of
//! bit-parallel rotate-and-mask kernels; the searcher is an iterative-deepening
//! negamax with alpha-beta pruning, aspiration windows and a two-layer
//! transposition table.

pub mod bits;
pub mod board;
pub mod color;
pub mod coordinates;
pub mod eval;
pub mod laws;
pub mod lazysort;
pub mod moves;
pub mod perft;
pub mod piece;
pub mod possible_moves;
pub mod search;
pub mod settings;
pub mod stackvec;
pub mod transposition_table;

pub use board::CheckersBitBoard;
pub use color::PieceColor;
pub use coordinates::SquareCoordinate;
pub use eval::Evaluation;
pub use lazysort::LazySort;
pub use lazysort::LazySortIter;
pub use moves::Move;
pub use moves::MoveDirection;
pub use piece::Piece;
pub use possible_moves::PossibleMoves;
pub use search::best_move;
pub use search::EvaluationTask;
pub use search::Frontend;
pub use settings::ActualLimit;
pub use settings::Clock;
pub use settings::EvaluationSettings;
pub use settings::SearchLimit;
pub use stackvec::StackVec;
pub use transposition_table::TranspositionTable;
