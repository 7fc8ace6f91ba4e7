//! A checker board packed into three 32-bit masks plus the side to move.
//!
//! The 32 playing squares are numbered so that a forward-left step from
//! square `v` lands on `(v + 7) % 32`, forward-right on `(v + 1) % 32`,
//! backward-left on `(v - 1) % 32` and backward-right on `(v - 7) % 32`;
//! jumps double each offset.

use vstd::prelude::*;

use crate::bits::bit32;
use crate::color::PieceColor;
use crate::coordinates::SquareCoordinate;
use crate::piece::Piece;
use crate::possible_moves::{spec_has_jumps, PossibleMoves};

verus! {

/// The squares where a Dark piece stands on its promotion row.
pub const DARK_PROMOTION_MASK: u32 = 0b10000010000000000000100000100000;

/// The squares where a Light piece stands on its promotion row.
pub const LIGHT_PROMOTION_MASK: u32 = 0b1000001000001000001;

/// Squares from which a forward jump lands on a promotion row.
pub const FORWARD_KING_MASK: u32 = 0b01000001000000000000010000010000;

/// Squares from which a backward jump lands on a promotion row.
pub const BACKWARD_KING_MASK: u32 = 0b00000000000010000010000010000010;

/// A checker board. Bits of `color` and `kings` at squares without a piece
/// carry no meaning: equality and hashing mask them away.
#[derive(Copy, Clone, Debug, Eq)]
pub struct CheckersBitBoard {
    /// If the space contains a piece, its bit is 1.
    pub pieces: u32,
    /// 1 if the piece is dark, otherwise 0.
    pub color: u32,
    /// 1 if the piece is a king.
    pub kings: u32,
    /// The player who has the next turn.
    pub turn: PieceColor,
}

/// Board equality: occupancy, the colors and king bits of occupied squares,
/// and the turn.
pub open spec fn spec_board_eq(a: CheckersBitBoard, b: CheckersBitBoard) -> bool {
    a.pieces == b.pieces && a.pieces & a.color == b.pieces & b.color && a.pieces & a.kings
        == b.pieces & b.kings && a.turn == b.turn
}

impl PartialEq for CheckersBitBoard {
    fn eq(&self, other: &Self) -> (r: bool) {
        self.pieces == other.pieces && self.pieces & self.color == other.pieces & other.color
            && self.pieces & self.kings == other.pieces & other.kings && self.turn == other.turn
    }
}

impl vstd::std_specs::cmp::PartialEqSpecImpl for CheckersBitBoard {
    open spec fn obeys_eq_spec() -> bool {
        true
    }

    open spec fn eq_spec(&self, other: &Self) -> bool {
        spec_board_eq(*self, *other)
    }
}

/// The same position with the other player to move.
pub open spec fn spec_flip_turn(b: CheckersBitBoard) -> CheckersBitBoard {
    CheckersBitBoard { turn: b.turn.spec_flip(), ..b }
}

/// The board after the piece on `start` moves to `dest`: the start square is
/// emptied, the destination takes the mover's color and king bits, every
/// piece standing on its own promotion row becomes a king, and the turn
/// flips.
pub open spec fn spec_move_piece(b: CheckersBitBoard, start: u32, dest: u32) -> CheckersBitBoard
    recommends
        start < 32,
        dest < 32,
{
    let pieces = (b.pieces & !(1u32 << start)) | (1u32 << dest);
    let color = (b.color & !(1u32 << dest)) | (((b.color >> start) & 1) << dest);
    let kings = (b.kings & !(1u32 << dest)) | (((b.kings >> start) & 1) << dest) | (color
        & DARK_PROMOTION_MASK) | (!color & LIGHT_PROMOTION_MASK);
    CheckersBitBoard { pieces, color, kings, turn: b.turn.spec_flip() }
}

/// The board after the piece on `value` jumps to `dest` over `mid`: the
/// captured piece on `mid` is removed, and the turn flips back to the mover
/// when a man that did not just promote can continue capturing.
pub open spec fn spec_jump_piece(
    b: CheckersBitBoard,
    value: u32,
    dest: u32,
    mid: u32,
    king_mask: u32,
) -> CheckersBitBoard
    recommends
        value < 32,
        dest < 32,
        mid < 32,
{
    let not_king = !bit32(b.kings, value);
    let moved = spec_move_piece(b, value, dest);
    let cleared = CheckersBitBoard { pieces: moved.pieces & !(1u32 << mid), ..moved };
    if spec_has_jumps(spec_flip_turn(cleared)) && not_king && ((1u32 << value) & king_mask)
        == 0 {
        spec_flip_turn(cleared)
    } else {
        cleared
    }
}

impl CheckersBitBoard {
    /// Creates a new checkers bitboard from its raw masks.
    pub fn new(pieces: u32, color: u32, kings: u32, turn: PieceColor) -> (r: Self)
        ensures
            r == (CheckersBitBoard { pieces, color, kings, turn }),
    {
        Self { pieces, color, kings, turn }
    }

    /// The starting position.
    pub open spec fn spec_starting_position() -> Self {
        CheckersBitBoard {
            pieces: 0b11100111100111100111110111111011u32,
            color: 0b00001100001111001111001111000011u32,
            kings: 0u32,
            turn: PieceColor::Dark,
        }
    }

    /// Creates a board at the starting position.
    pub fn starting_position() -> (r: Self)
        ensures
            r == Self::spec_starting_position(),
    {
        Self::new(
            0b11100111100111100111110111111011,
            0b00001100001111001111001111000011,
            0,
            PieceColor::Dark,
        )
    }

    /// The bits that represent where pieces are on the board.
    pub fn pieces_bits(self) -> (r: u32)
        ensures
            r == self.pieces,
    {
        self.pieces
    }

    /// The bits that represent the color of each piece, including meaningless
    /// bits at empty squares.
    pub fn color_bits(self) -> (r: u32)
        ensures
            r == self.color,
    {
        self.color
    }

    /// The bits that represent the king status of each piece, including
    /// meaningless bits at empty squares.
    pub fn king_bits(self) -> (r: u32)
        ensures
            r == self.kings,
    {
        self.kings
    }

    /// The player whose turn it is.
    pub fn turn(self) -> (r: PieceColor)
        ensures
            r == self.turn,
    {
        self.turn
    }

    /// The hash of the position: the occupancy word alone. Collisions are
    /// frequent by design; users check full equality on a hit.
    pub fn hash_code(self) -> (r: u32)
        ensures
            r == self.pieces,
    {
        self.pieces
    }

    /// Whether there is a piece at the given space.
    pub fn piece_at(self, value: usize) -> (r: bool)
        requires
            value < 32,
        ensures
            r == bit32(self.pieces, value as u32),
    {
        let v = value as u32;
        ((self.pieces >> v) & 1) == 1
    }

    /// The color bit at the given space, read without checking that a piece
    /// is there.
    pub fn color_at_unchecked(self, value: usize) -> (r: PieceColor)
        requires
            value < 32,
        ensures
            r == if bit32(self.color, value as u32) {
                PieceColor::Dark
            } else {
                PieceColor::Light
            },
    {
        let v = value as u32;
        let c = self.color;
        proof {
            assert((c >> v) & 1u32 <= 1u32) by (bit_vector);
        }
        if ((c >> v) & 1) != 0 {
            PieceColor::Dark
        } else {
            PieceColor::Light
        }
    }

    /// The color of the piece at the given space, or `None` when the space is
    /// empty.
    pub fn color_at(self, value: usize) -> (r: Option<PieceColor>)
        requires
            value < 32,
        ensures
            r == if bit32(self.pieces, value as u32) {
                Some(
                    if bit32(self.color, value as u32) {
                        PieceColor::Dark
                    } else {
                        PieceColor::Light
                    },
                )
            } else {
                None::<PieceColor>
            },
    {
        if self.piece_at(value) {
            Some(self.color_at_unchecked(value))
        } else {
            None
        }
    }

    /// The king bit at the given space, read without checking that a piece is
    /// there.
    pub fn king_at_unchecked(self, value: usize) -> (r: bool)
        requires
            value < 32,
        ensures
            r == bit32(self.kings, value as u32),
    {
        let v = value as u32;
        ((self.kings >> v) & 1) == 1
    }

    /// Whether the piece at the given space is a king, or `None` when the
    /// space is empty.
    pub fn king_at(self, value: usize) -> (r: Option<bool>)
        requires
            value < 32,
        ensures
            r == if bit32(self.pieces, value as u32) {
                Some(bit32(self.kings, value as u32))
            } else {
                None::<bool>
            },
    {
        if self.piece_at(value) {
            Some(self.king_at_unchecked(value))
        } else {
            None
        }
    }

    /// The piece at a rank and file, or `None` when the square is not a
    /// playing square or is empty.
    pub fn get_at_row_col(self, row: usize, col: usize) -> (r: Option<Piece>)
        ensures
            r matches Some(p) ==> row < 8 && col < 8 && (SquareCoordinate::spec_to_value(
                row as u8,
                col as u8,
            ) matches Some(v) && bit32(self.pieces, v as u32) && p == Piece::spec_new(
                bit32(self.kings, v as u32),
                if bit32(self.color, v as u32) {
                    PieceColor::Dark
                } else {
                    PieceColor::Light
                },
            )),
            r is None ==> row >= 8 || col >= 8 || SquareCoordinate::spec_to_value(
                row as u8,
                col as u8,
            ) is None || (SquareCoordinate::spec_to_value(row as u8, col as u8) matches Some(v)
                && !bit32(self.pieces, v as u32)),
    {
        if row >= 8 || col >= 8 {
            None
        } else {
            let value = SquareCoordinate::new(row as u8, col as u8).to_value();
            if let Some(value) = value {
                if self.piece_at(value) {
                    Some(
                        Piece::new(self.king_at_unchecked(value), self.color_at_unchecked(value)),
                    )
                } else {
                    None
                }
            } else {
                None
            }
        }
    }

    /// The same position with the other player to move.
    pub fn flip_turn(self) -> (r: Self)
        ensures
            r == spec_flip_turn(self),
    {
        CheckersBitBoard::new(self.pieces, self.color, self.kings, self.turn.flip())
    }

    /// Moves a piece from `start` to `dest`, overwriting whatever stood
    /// there, without checking that this is a legal ply.
    pub fn move_piece_to_unchecked(self, start: usize, dest: usize) -> (r: Self)
        requires
            start < 32,
            dest < 32,
        ensures
            r == spec_move_piece(self, start as u32, dest as u32),
    {
        let s = start as u32;
        let d = dest as u32;
        let pieces = (self.pieces & !(1u32 << s)) | (1u32 << d);
        let color = (self.color & !(1u32 << d)) | (((self.color >> s) & 1) << d);
        let kings = (self.kings & !(1u32 << d)) | (((self.kings >> s) & 1) << d) | (color
            & DARK_PROMOTION_MASK) | (!color & LIGHT_PROMOTION_MASK);
        let turn = self.turn.flip();
        CheckersBitBoard::new(pieces, color, kings, turn)
    }

    /// Moves a piece from `value` to `(value + amount) % 32`.
    pub fn move_piece_forward_unchecked(self, value: usize, amount: usize) -> (r: Self)
        requires
            value < 32,
            amount < 32,
        ensures
            r == spec_move_piece(self, value as u32, ((value + amount) % 32) as u32),
    {
        let dest = (value + amount) & 31;
        proof {
            let x: usize = (value + amount) as usize;
            assert(x & 31 == x % 32) by (bit_vector);
        }
        self.move_piece_to_unchecked(value, dest)
    }

    /// Moves a piece from `value` to `(value - amount) % 32`.
    pub fn move_piece_backward_unchecked(self, value: usize, amount: usize) -> (r: Self)
        requires
            value < 32,
            amount < 32,
        ensures
            r == spec_move_piece(self, value as u32, ((value + 32 - amount) % 32) as u32),
    {
        let dest = (value + 32 - amount) & 31;
        proof {
            let x: usize = (value + 32 - amount) as usize;
            assert(x & 31 == x % 32) by (bit_vector);
        }
        self.move_piece_to_unchecked(value, dest)
    }

    /// Moves the piece at `value` one step forward-left, without checking
    /// that the move is legal.
    pub fn move_piece_forward_left_unchecked(self, value: usize) -> (r: Self)
        requires
            value < 32,
        ensures
            r == spec_move_piece(self, value as u32, ((value + 7) % 32) as u32),
    {
        self.move_piece_forward_unchecked(value, 7)
    }

    /// Moves the piece at `value` one step forward-right, without checking
    /// that the move is legal.
    pub fn move_piece_forward_right_unchecked(self, value: usize) -> (r: Self)
        requires
            value < 32,
        ensures
            r == spec_move_piece(self, value as u32, ((value + 1) % 32) as u32),
    {
        self.move_piece_forward_unchecked(value, 1)
    }

    /// Moves the piece at `value` one step backward-left, without checking
    /// that the move is legal.
    pub fn move_piece_backward_left_unchecked(self, value: usize) -> (r: Self)
        requires
            value < 32,
        ensures
            r == spec_move_piece(self, value as u32, ((value + 31) % 32) as u32),
    {
        let r = self.move_piece_backward_unchecked(value, 1);
        assert(value + 32 - 1 == value + 31);
        r
    }

    /// Moves the piece at `value` one step backward-right, without checking
    /// that the move is legal.
    pub fn move_piece_backward_right_unchecked(self, value: usize) -> (r: Self)
        requires
            value < 32,
        ensures
            r == spec_move_piece(self, value as u32, ((value + 25) % 32) as u32),
    {
        let r = self.move_piece_backward_unchecked(value, 7);
        assert(value + 32 - 7 == value + 25);
        r
    }

    /// Clears a space on the board. If the space is already empty, nothing
    /// changes.
    pub fn clear_piece(self, value: usize) -> (r: Self)
        requires
            value < 32,
        ensures
            r == (CheckersBitBoard { pieces: self.pieces & !(1u32 << (value as u32)), ..self }),
    {
        let v = value as u32;
        let pieces = self.pieces & !(1u32 << v);
        CheckersBitBoard::new(pieces, self.color, self.kings, self.turn)
    }

    /// Jumps the piece at `value` forward-left, clearing the captured piece,
    /// without checking that the jump is legal. The turn stays with the mover
    /// when a man that did not just promote can continue capturing.
    pub fn jump_piece_forward_left_unchecked(self, value: usize) -> (r: Self)
        requires
            value < 32,
        ensures
            r == spec_jump_piece(
                self,
                value as u32,
                ((value + 14) % 32) as u32,
                ((value + 7) % 32) as u32,
                FORWARD_KING_MASK,
            ),
    {
        let not_king = !self.king_at_unchecked(value);
        let mid = (value + 7) & 31;
        proof {
            let x: usize = (value + 7) as usize;
            assert(x & 31 == x % 32 && x % 32 < 32) by (bit_vector);
        }
        let board = self.move_piece_forward_unchecked(value, 14).clear_piece(mid);
        let v = value as u32;
        if PossibleMoves::has_jumps(board.flip_turn()) && not_king && ((1u32 << v)
            & FORWARD_KING_MASK) == 0 {
            board.flip_turn()
        } else {
            board
        }
    }

    /// Jumps the piece at `value` forward-right, clearing the captured piece,
    /// without checking that the jump is legal.
    pub fn jump_piece_forward_right_unchecked(self, value: usize) -> (r: Self)
        requires
            value < 32,
        ensures
            r == spec_jump_piece(
                self,
                value as u32,
                ((value + 2) % 32) as u32,
                ((value + 1) % 32) as u32,
                FORWARD_KING_MASK,
            ),
    {
        let not_king = !self.king_at_unchecked(value);
        let mid = (value + 1) & 31;
        proof {
            let x: usize = (value + 1) as usize;
            assert(x & 31 == x % 32 && x % 32 < 32) by (bit_vector);
        }
        let board = self.move_piece_forward_unchecked(value, 2).clear_piece(mid);
        let v = value as u32;
        if PossibleMoves::has_jumps(board.flip_turn()) && not_king && ((1u32 << v)
            & FORWARD_KING_MASK) == 0 {
            board.flip_turn()
        } else {
            board
        }
    }

    /// Jumps the piece at `value` backward-left, clearing the captured piece,
    /// without checking that the jump is legal.
    pub fn jump_piece_backward_left_unchecked(self, value: usize) -> (r: Self)
        requires
            value < 32,
        ensures
            r == spec_jump_piece(
                self,
                value as u32,
                ((value + 30) % 32) as u32,
                ((value + 31) % 32) as u32,
                BACKWARD_KING_MASK,
            ),
    {
        let not_king = !self.king_at_unchecked(value);
        let mid = (value + 31) & 31;
        proof {
            let x: usize = (value + 31) as usize;
            assert(x & 31 == x % 32 && x % 32 < 32) by (bit_vector);
        }
        let board = self.move_piece_backward_unchecked(value, 2).clear_piece(mid);
        assert(value + 32 - 2 == value + 30);
        let v = value as u32;
        if PossibleMoves::has_jumps(board.flip_turn()) && not_king && ((1u32 << v)
            & BACKWARD_KING_MASK) == 0 {
            board.flip_turn()
        } else {
            board
        }
    }

    /// Jumps the piece at `value` backward-right, clearing the captured
    /// piece, without checking that the jump is legal.
    pub fn jump_piece_backward_right_unchecked(self, value: usize) -> (r: Self)
        requires
            value < 32,
        ensures
            r == spec_jump_piece(
                self,
                value as u32,
                ((value + 18) % 32) as u32,
                ((value + 25) % 32) as u32,
                BACKWARD_KING_MASK,
            ),
    {
        let not_king = !self.king_at_unchecked(value);
        let mid = (value + 25) & 31;
        proof {
            let x: usize = (value + 25) as usize;
            assert(x & 31 == x % 32 && x % 32 < 32) by (bit_vector);
        }
        let board = self.move_piece_backward_unchecked(value, 14).clear_piece(mid);
        assert(value + 32 - 14 == value + 18);
        let v = value as u32;
        if PossibleMoves::has_jumps(board.flip_turn()) && not_king && ((1u32 << v)
            & BACKWARD_KING_MASK) == 0 {
            board.flip_turn()
        } else {
            board
        }
    }
}

impl Default for CheckersBitBoard {
    /// Returns the starting position.
    fn default() -> (r: Self)
        ensures
            r == Self::spec_starting_position(),
    {
        Self::starting_position()
    }
}

} // verus!
