//! A single piece: its color and whether it is a king.

use vstd::prelude::*;

use crate::color::PieceColor;

verus! {

/// A piece on the board.
#[derive(Copy, Clone, Debug, PartialEq, Eq, Hash, Structural)]
pub struct Piece {
    pub king: bool,
    pub color: PieceColor,
}

impl Piece {
    /// A piece with the given king status and color.
    pub open spec fn spec_new(king: bool, color: PieceColor) -> Self {
        Piece { king, color }
    }

    /// Creates a piece.
    pub(crate) fn new(king: bool, color: PieceColor) -> (r: Self)
        ensures
            r == Self::spec_new(king, color),
    {
        Self { king, color }
    }

    /// Whether the piece is a king.
    pub fn is_king(self) -> (r: bool)
        ensures
            r == self.king,
    {
        self.king
    }

    /// The piece's color.
    pub fn color(self) -> (r: PieceColor)
        ensures
            r == self.color,
    {
        self.color
    }
}

} // verus!
