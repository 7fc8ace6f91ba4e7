//! A checkers ply, packed into a single byte.
//!
//! The first five bits hold the starting square, the next two the direction,
//! and the last bit whether the ply is a jump.

use vstd::prelude::*;

use crate::board::{
    spec_jump_piece, spec_move_piece, CheckersBitBoard, BACKWARD_KING_MASK, FORWARD_KING_MASK,
};

verus! {

/// One of the four diagonal directions.
#[derive(Copy, Clone, Debug, PartialEq, Eq, Hash, Structural)]
pub enum MoveDirection {
    ForwardLeft,
    ForwardRight,
    BackwardLeft,
    BackwardRight,
}

/// The two-bit code of a direction.
pub open spec fn spec_direction_code(dir: MoveDirection) -> u8 {
    match dir {
        MoveDirection::ForwardLeft => 0u8,
        MoveDirection::ForwardRight => 1u8,
        MoveDirection::BackwardLeft => 2u8,
        MoveDirection::BackwardRight => 3u8,
    }
}

/// A checkers move.
#[derive(Copy, Clone, Debug, PartialEq, Eq, Hash, Structural)]
pub struct Move(pub u8);

impl Move {
    /// The byte that encodes a move.
    pub open spec fn spec_new(start: u32, direction: MoveDirection, jump: bool) -> Move {
        Move(
            (((start as u8) << 3) | (spec_direction_code(direction) << 1) | (if jump {
                1u8
            } else {
                0u8
            })) as u8,
        )
    }

    /// The starting square of a move.
    pub open spec fn spec_start(self) -> u32 {
        ((self.0 >> 3) & 0b11111) as u32
    }

    /// The direction of a move.
    pub open spec fn spec_direction(self) -> MoveDirection {
        if (self.0 >> 1) & 0b11 == 0 {
            MoveDirection::ForwardLeft
        } else if (self.0 >> 1) & 0b11 == 1 {
            MoveDirection::ForwardRight
        } else if (self.0 >> 1) & 0b11 == 2 {
            MoveDirection::BackwardLeft
        } else {
            MoveDirection::BackwardRight
        }
    }

    /// Whether a move is a jump.
    pub open spec fn spec_is_jump(self) -> bool {
        self.0 & 1 == 1
    }

    /// Creates a new move.
    pub fn new(start: usize, direction: MoveDirection, jump: bool) -> (r: Self)
        requires
            start < 32,
        ensures
            r == Self::spec_new(start as u32, direction, jump),
            r.spec_start() == start as u32,
            r.spec_direction() == direction,
            r.spec_is_jump() == jump,
    {
        let s = start as u8;
        let d: u8 = match direction {
            MoveDirection::ForwardLeft => 0,
            MoveDirection::ForwardRight => 1,
            MoveDirection::BackwardLeft => 2,
            MoveDirection::BackwardRight => 3,
        };
        let j: u8 = if jump {
            1
        } else {
            0
        };
        let r = Move((s << 3) | (d << 1) | j);
        proof {
            assert(s < 32 && d < 4 && j < 2 ==> ((((s << 3) | (d << 1) | j) >> 3) & 0b11111) == s
                && ((((s << 3) | (d << 1) | j) >> 1) & 0b11) == d && (((s << 3) | (d << 1) | j)
                & 1) == j) by (bit_vector);
        }
        r
    }

    /// The starting position of the move.
    pub fn start(self) -> (r: u32)
        ensures
            r == self.spec_start(),
            r < 32,
    {
        let r = ((self.0 >> 3) & 0b11111) as u32;
        proof {
            let b = self.0;
            assert(((b >> 3) & 0b11111) < 32) by (bit_vector);
        }
        r
    }

    /// The direction the move goes in.
    pub fn direction(self) -> (r: MoveDirection)
        ensures
            r == self.spec_direction(),
    {
        let d = (self.0 >> 1) & 0b11;
        if d == 0 {
            MoveDirection::ForwardLeft
        } else if d == 1 {
            MoveDirection::ForwardRight
        } else if d == 2 {
            MoveDirection::BackwardLeft
        } else {
            MoveDirection::BackwardRight
        }
    }

    /// Returns `true` if the move is a jump.
    pub fn is_jump(self) -> (r: bool)
        ensures
            r == self.spec_is_jump(),
    {
        (self.0 & 1) == 1
    }

    /// The square a move lands on.
    pub open spec fn spec_end_position(self) -> usize {
        let off: u32 = if self.spec_is_jump() {
            match self.spec_direction() {
                MoveDirection::ForwardLeft => 14u32,
                MoveDirection::ForwardRight => 2u32,
                MoveDirection::BackwardLeft => 30u32,
                MoveDirection::BackwardRight => 18u32,
            }
        } else {
            match self.spec_direction() {
                MoveDirection::ForwardLeft => 7u32,
                MoveDirection::ForwardRight => 1u32,
                MoveDirection::BackwardLeft => 31u32,
                MoveDirection::BackwardRight => 25u32,
            }
        };
        (((self.spec_start() + off) % 32) as usize)
    }

    /// Calculates the value of the end position of the move.
    pub fn end_position(self) -> (r: usize)
        ensures
            r == self.spec_end_position(),
            r < 32,
    {
        let start = self.start();
        let dest: u32 = match self.is_jump() {
            false => match self.direction() {
                MoveDirection::ForwardLeft => (start + 7) % 32,
                MoveDirection::ForwardRight => (start + 1) % 32,
                MoveDirection::BackwardLeft => (start + 31) % 32,
                MoveDirection::BackwardRight => (start + 25) % 32,
            },
            true => match self.direction() {
                MoveDirection::ForwardLeft => (start + 14) % 32,
                MoveDirection::ForwardRight => (start + 2) % 32,
                MoveDirection::BackwardLeft => (start + 30) % 32,
                MoveDirection::BackwardRight => (start + 18) % 32,
            },
        };
        dest as usize
    }

    /// The square a jump leaps over.
    pub open spec fn spec_jump_position(self) -> usize {
        let off: u32 = match self.spec_direction() {
            MoveDirection::ForwardLeft => 7u32,
            MoveDirection::ForwardRight => 1u32,
            MoveDirection::BackwardLeft => 31u32,
            MoveDirection::BackwardRight => 25u32,
        };
        (((self.spec_start() + off) % 32) as usize)
    }

    /// Calculates the value of the position that was jumped over. Only
    /// meaningful for jumps.
    pub fn jump_position(self) -> (r: usize)
        requires
            self.spec_is_jump(),
        ensures
            r == self.spec_jump_position(),
            r < 32,
    {
        let start = self.start();
        let pos: u32 = match self.direction() {
            MoveDirection::ForwardLeft => (start + 7) % 32,
            MoveDirection::ForwardRight => (start + 1) % 32,
            MoveDirection::BackwardLeft => (start + 31) % 32,
            MoveDirection::BackwardRight => (start + 25) % 32,
        };
        pos as usize
    }

    /// The board after this move is applied to `board`.
    pub open spec fn spec_apply(self, board: CheckersBitBoard) -> CheckersBitBoard {
        let s = self.spec_start();
        if self.spec_is_jump() {
            match self.spec_direction() {
                MoveDirection::ForwardLeft => spec_jump_piece(
                    board,
                    s,
                    ((s + 14) % 32) as u32,
                    ((s + 7) % 32) as u32,
                    FORWARD_KING_MASK,
                ),
                MoveDirection::ForwardRight => spec_jump_piece(
                    board,
                    s,
                    ((s + 2) % 32) as u32,
                    ((s + 1) % 32) as u32,
                    FORWARD_KING_MASK,
                ),
                MoveDirection::BackwardLeft => spec_jump_piece(
                    board,
                    s,
                    ((s + 30) % 32) as u32,
                    ((s + 31) % 32) as u32,
                    BACKWARD_KING_MASK,
                ),
                MoveDirection::BackwardRight => spec_jump_piece(
                    board,
                    s,
                    ((s + 18) % 32) as u32,
                    ((s + 25) % 32) as u32,
                    BACKWARD_KING_MASK,
                ),
            }
        } else {
            match self.spec_direction() {
                MoveDirection::ForwardLeft => spec_move_piece(board, s, ((s + 7) % 32) as u32),
                MoveDirection::ForwardRight => spec_move_piece(board, s, ((s + 1) % 32) as u32),
                MoveDirection::BackwardLeft => spec_move_piece(board, s, ((s + 31) % 32) as u32),
                MoveDirection::BackwardRight => spec_move_piece(board, s, ((s + 25) % 32) as u32),
            }
        }
    }

    /// Applies the move to a board, returning the new board. The move must
    /// come out of the legal set of the position for the result to mean
    /// anything.
    pub fn apply_to(self, board: CheckersBitBoard) -> (r: CheckersBitBoard)
        ensures
            r == self.spec_apply(board),
    {
        let start = self.start() as usize;
        match self.is_jump() {
            false => match self.direction() {
                MoveDirection::ForwardLeft => board.move_piece_forward_left_unchecked(start),
                MoveDirection::ForwardRight => board.move_piece_forward_right_unchecked(start),
                MoveDirection::BackwardLeft => board.move_piece_backward_left_unchecked(start),
                MoveDirection::BackwardRight => board.move_piece_backward_right_unchecked(start),
            },
            true => match self.direction() {
                MoveDirection::ForwardLeft => board.jump_piece_forward_left_unchecked(start),
                MoveDirection::ForwardRight => board.jump_piece_forward_right_unchecked(start),
                MoveDirection::BackwardLeft => board.jump_piece_backward_left_unchecked(start),
                MoveDirection::BackwardRight => board.jump_piece_backward_right_unchecked(start),
            },
        }
    }
}

} // verus!
