//! Bit-parallel move generation: slides-or-jumps with the forced-capture rule.
//!
//! Each direction mask marks the squares whose diagonal step in that direction
//! stays on the board; a mover bit is set when the friendly piece on that
//! square has an empty landing square (and, for jumps, an enemy piece in
//! between).

use vstd::prelude::*;

use crate::bits::bit32;
use crate::board::CheckersBitBoard;
use crate::color::PieceColor;
use crate::moves::{Move, MoveDirection};

verus! {

/// The squares from which a forward-left slide stays on the board.
pub const SLIDE_FL_MASK: u32 = 0b01111001111110111111001111011011;

/// The squares from which a forward-right slide stays on the board.
pub const SLIDE_FR_MASK: u32 = 0b01111101111111011111010111011101;

/// The squares from which a backward-left slide stays on the board.
pub const SLIDE_BL_MASK: u32 = 0b11111011111110111110101110111010;

/// The squares from which a backward-right slide stays on the board.
pub const SLIDE_BR_MASK: u32 = 0b11111001111110011110110110111100;

/// The squares from which a forward-left jump stays on the board.
pub const JUMP_FL_MASK: u32 = 0b00110000111100111111001111000011;

/// The squares from which a forward-right jump stays on the board.
pub const JUMP_FR_MASK: u32 = 0b00111100111111001111000011001100;

/// The squares from which a backward-left jump stays on the board.
pub const JUMP_BL_MASK: u32 = 0b11110011111100111100001100110000;

/// The squares from which a backward-right jump stays on the board.
pub const JUMP_BR_MASK: u32 = 0b11111100111100001100110000111100;

/// All bits of the backward-right word except the jump flag bit.
pub const NOT_JUMP_FLAG: u32 = 0xFFFF_FFFD;

/// `x` rotated right by `n` bits.
pub open spec fn rotr(x: u32, n: u32) -> u32
    recommends
        0 < n < 32,
{
    (x >> n) | (x << ((32 - n) as u32))
}

/// Rotates `x` right by `n` bits.
pub fn rotate_right(x: u32, n: u32) -> (r: u32)
    requires
        0 < n < 32,
    ensures
        r == rotr(x, n),
{
    (x >> n) | (x << (32 - n))
}

/// Squares whose Dark man or king can slide forward-left.
pub open spec fn dark_slide_fl(p: u32, c: u32) -> u32 {
    rotr(!p, 7) & (p & c) & SLIDE_FL_MASK
}

/// Squares whose Dark man or king can slide forward-right.
pub open spec fn dark_slide_fr(p: u32, c: u32) -> u32 {
    rotr(!p, 1) & (p & c) & SLIDE_FR_MASK
}

/// Squares whose Dark king can slide backward-left.
pub open spec fn dark_slide_bl(p: u32, c: u32, k: u32) -> u32 {
    rotr(!p, 31) & (p & c & k) & SLIDE_BL_MASK
}

/// Squares whose Dark king can slide backward-right.
pub open spec fn dark_slide_br(p: u32, c: u32, k: u32) -> u32 {
    rotr(!p, 25) & (p & c & k) & SLIDE_BR_MASK
}

/// Squares whose Light man or king can slide backward-left.
pub open spec fn light_slide_bl(p: u32, c: u32) -> u32 {
    rotr(!p, 31) & (p & !c) & SLIDE_BL_MASK
}

/// Squares whose Light man or king can slide backward-right.
pub open spec fn light_slide_br(p: u32, c: u32) -> u32 {
    rotr(!p, 25) & (p & !c) & SLIDE_BR_MASK
}

/// Squares whose Light king can slide forward-left.
pub open spec fn light_slide_fl(p: u32, c: u32, k: u32) -> u32 {
    rotr(!p, 7) & (p & !c & k) & SLIDE_FL_MASK
}

/// Squares whose Light king can slide forward-right.
pub open spec fn light_slide_fr(p: u32, c: u32, k: u32) -> u32 {
    rotr(!p, 1) & (p & !c & k) & SLIDE_FR_MASK
}

/// Squares whose Dark man or king can jump forward-left.
pub open spec fn dark_jump_fl(p: u32, c: u32) -> u32 {
    rotr(!p, 14) & rotr(p & !c, 7) & (p & c) & JUMP_FL_MASK
}

/// Squares whose Dark man or king can jump forward-right.
pub open spec fn dark_jump_fr(p: u32, c: u32) -> u32 {
    rotr(!p, 2) & rotr(p & !c, 1) & (p & c) & JUMP_FR_MASK
}

/// Squares whose Dark king can jump backward-left.
pub open spec fn dark_jump_bl(p: u32, c: u32, k: u32) -> u32 {
    rotr(!p, 30) & rotr(p & !c, 31) & (p & c & k) & JUMP_BL_MASK
}

/// Squares whose Dark king can jump backward-right.
pub open spec fn dark_jump_br(p: u32, c: u32, k: u32) -> u32 {
    rotr(!p, 18) & rotr(p & !c, 25) & (p & c & k) & JUMP_BR_MASK
}

/// Squares whose Light man or king can jump backward-left.
pub open spec fn light_jump_bl(p: u32, c: u32) -> u32 {
    rotr(!p, 30) & rotr(p & c, 31) & (p & !c) & JUMP_BL_MASK
}

/// Squares whose Light man or king can jump backward-right.
pub open spec fn light_jump_br(p: u32, c: u32) -> u32 {
    rotr(!p, 18) & rotr(p & c, 25) & (p & !c) & JUMP_BR_MASK
}

/// Squares whose Light king can jump forward-left.
pub open spec fn light_jump_fl(p: u32, c: u32, k: u32) -> u32 {
    rotr(!p, 14) & rotr(p & c, 7) & (p & !c & k) & JUMP_FL_MASK
}

/// Squares whose Light king can jump forward-right.
pub open spec fn light_jump_fr(p: u32, c: u32, k: u32) -> u32 {
    rotr(!p, 2) & rotr(p & c, 1) & (p & !c & k) & JUMP_FR_MASK
}


/// The squares from which Dark could jump forward, were a Dark piece there.
pub open spec fn dark_forward_jump_spaces(p: u32, c: u32) -> u32 {
    (rotr(!p, 14) & rotr(p & !c, 7) & JUMP_FL_MASK) | (rotr(!p, 2) & rotr(p & !c, 1)
        & JUMP_FR_MASK)
}

/// The squares from which Dark could jump backward, were a Dark king there.
pub open spec fn dark_backward_jump_spaces(p: u32, c: u32) -> u32 {
    (rotr(!p, 30) & rotr(p & !c, 31) & JUMP_BL_MASK) | (rotr(!p, 18) & rotr(p & !c, 25)
        & JUMP_BR_MASK)
}

/// The squares from which Light could jump backward, were a Light piece
/// there.
pub open spec fn light_backward_jump_spaces(p: u32, c: u32) -> u32 {
    (rotr(!p, 30) & rotr(p & c, 31) & JUMP_BL_MASK) | (rotr(!p, 18) & rotr(p & c, 25)
        & JUMP_BR_MASK)
}

/// The squares from which Light could jump forward, were a Light king there.
pub open spec fn light_forward_jump_spaces(p: u32, c: u32) -> u32 {
    (rotr(!p, 14) & rotr(p & c, 7) & JUMP_FL_MASK) | (rotr(!p, 2) & rotr(p & c, 1)
        & JUMP_FR_MASK)
}


/// The one-word jump test equals the or of the four jump kernels.
proof fn lemma_dark_jump_spaces(p: u32, c: u32, k: u32)
    by (bit_vector)
    ensures
        ((p & c) & (dark_forward_jump_spaces(p, c) | (k & dark_backward_jump_spaces(p, c))) != 0)
            == (dark_jump_fl(p, c) | dark_jump_fr(p, c) | dark_jump_bl(p, c, k) | dark_jump_br(
            p,
            c,
            k,
        ) != 0),
        k == 0 ==> ((p & c) & dark_forward_jump_spaces(p, c) != 0) == (dark_jump_fl(p, c)
            | dark_jump_fr(p, c) | dark_jump_bl(p, c, k) | dark_jump_br(p, c, k) != 0),
{
}

/// The one-word jump test equals the or of the four jump kernels.
proof fn lemma_light_jump_spaces(p: u32, c: u32, k: u32)
    by (bit_vector)
    ensures
        ((p & !c) & ((k & light_forward_jump_spaces(p, c)) | light_backward_jump_spaces(p, c))
            != 0) == (light_jump_fl(p, c, k) | light_jump_fr(p, c, k) | light_jump_bl(p, c)
            | light_jump_br(p, c) != 0),
        k == 0 ==> ((p & !c) & light_backward_jump_spaces(p, c) != 0) == (light_jump_fl(p, c, k)
            | light_jump_fr(p, c, k) | light_jump_bl(p, c) | light_jump_br(p, c) != 0),
{
}

/// True when the side to move is Dark and some Dark jump exists.
pub open spec fn spec_has_jumps_dark(b: CheckersBitBoard) -> bool {
    (dark_jump_fl(b.pieces, b.color) | dark_jump_fr(b.pieces, b.color) | dark_jump_bl(
        b.pieces,
        b.color,
        b.kings,
    ) | dark_jump_br(b.pieces, b.color, b.kings)) != 0
}

/// True when the side to move is Light and some Light jump exists.
pub open spec fn spec_has_jumps_light(b: CheckersBitBoard) -> bool {
    (light_jump_fl(b.pieces, b.color, b.kings) | light_jump_fr(b.pieces, b.color, b.kings)
        | light_jump_bl(b.pieces, b.color) | light_jump_br(b.pieces, b.color)) != 0
}

/// True when the side to move has a jump available.
pub open spec fn spec_has_jumps(b: CheckersBitBoard) -> bool {
    match b.turn {
        PieceColor::Light => spec_has_jumps_light(b),
        PieceColor::Dark => spec_has_jumps_dark(b),
    }
}

/// The slide set of the side to move.
pub open spec fn spec_slides(b: CheckersBitBoard) -> PossibleMoves {
    match b.turn {
        PieceColor::Dark => PossibleMoves {
            forward_left_movers: dark_slide_fl(b.pieces, b.color),
            forward_right_movers: dark_slide_fr(b.pieces, b.color),
            backward_left_movers: dark_slide_bl(b.pieces, b.color, b.kings),
            backward_right_movers: dark_slide_br(b.pieces, b.color, b.kings),
        },
        PieceColor::Light => PossibleMoves {
            forward_left_movers: light_slide_fl(b.pieces, b.color, b.kings),
            forward_right_movers: light_slide_fr(b.pieces, b.color, b.kings),
            backward_left_movers: light_slide_bl(b.pieces, b.color),
            backward_right_movers: light_slide_br(b.pieces, b.color),
        },
    }
}

/// The jump set of the side to move, with the flag bit set when it is
/// non-empty.
pub open spec fn spec_jumps(b: CheckersBitBoard) -> PossibleMoves {
    let flag: u32 = if spec_has_jumps(b) {
        2
    } else {
        0
    };
    match b.turn {
        PieceColor::Dark => PossibleMoves {
            forward_left_movers: dark_jump_fl(b.pieces, b.color),
            forward_right_movers: dark_jump_fr(b.pieces, b.color),
            backward_left_movers: dark_jump_bl(b.pieces, b.color, b.kings),
            backward_right_movers: dark_jump_br(b.pieces, b.color, b.kings) | flag,
        },
        PieceColor::Light => PossibleMoves {
            forward_left_movers: light_jump_fl(b.pieces, b.color, b.kings),
            forward_right_movers: light_jump_fr(b.pieces, b.color, b.kings),
            backward_left_movers: light_jump_bl(b.pieces, b.color),
            backward_right_movers: light_jump_br(b.pieces, b.color) | flag,
        },
    }
}

/// The legal ply set of the side to move: jumps when any exist, else slides.
pub open spec fn spec_moves(b: CheckersBitBoard) -> PossibleMoves {
    if spec_has_jumps(b) {
        spec_jumps(b)
    } else {
        spec_slides(b)
    }
}

/// The mover word of a direction, with the flag bit masked away.
pub open spec fn spec_real_movers(pm: PossibleMoves, dir: MoveDirection) -> u32 {
    match dir {
        MoveDirection::ForwardLeft => pm.forward_left_movers,
        MoveDirection::ForwardRight => pm.forward_right_movers,
        MoveDirection::BackwardLeft => pm.backward_left_movers,
        MoveDirection::BackwardRight => pm.backward_right_movers & NOT_JUMP_FLAG,
    }
}

/// A ply is legal on `b` when its square can move in its direction, and it is
/// a jump exactly when the position is a capture position.
pub open spec fn spec_legal(b: CheckersBitBoard, m: Move) -> bool {
    m.spec_is_jump() == spec_has_jumps(b) && bit32(
        spec_real_movers(spec_moves(b), m.spec_direction()),
        m.spec_start(),
    )
}

/// The possible moves in a particular position: one bit per square, one word
/// per direction, plus a flag bit (bit 1 of the backward-right word) that is
/// set when the set holds jumps.
#[derive(Copy, Clone, Debug)]
pub struct PossibleMoves {
    pub forward_left_movers: u32,
    pub forward_right_movers: u32,
    pub backward_left_movers: u32,
    pub backward_right_movers: u32,
}

impl PossibleMoves {
    /// The highest possible number of valid moves.
    pub const MAX_POSSIBLE_MOVES: usize = 50;

    /// The slide set for Dark.
    pub(crate) fn slides_dark(board: CheckersBitBoard) -> (r: PossibleMoves)
        ensures
            r.forward_left_movers == dark_slide_fl(board.pieces, board.color),
            r.forward_right_movers == dark_slide_fr(board.pieces, board.color),
            r.backward_left_movers == dark_slide_bl(board.pieces, board.color, board.kings),
            r.backward_right_movers == dark_slide_br(board.pieces, board.color, board.kings),
    {
        let not_occupied = !board.pieces_bits();
        let friendly_pieces = board.pieces_bits() & board.color_bits();
        let friendly_kings = friendly_pieces & board.king_bits();

        let forward_left_movers = rotate_right(not_occupied, 7) & friendly_pieces & SLIDE_FL_MASK;
        let forward_right_movers = rotate_right(not_occupied, 1) & friendly_pieces & SLIDE_FR_MASK;
        let backward_left_movers: u32;
        let backward_right_movers: u32;

        if friendly_kings > 0 {
            backward_left_movers = rotate_right(not_occupied, 31) & friendly_kings & SLIDE_BL_MASK;
            backward_right_movers = rotate_right(not_occupied, 25) & friendly_kings & SLIDE_BR_MASK;
        } else {
            backward_left_movers = 0;
            backward_right_movers = 0;
            assert(forall|x: u32, m: u32| (x & 0u32) & m == 0u32) by (bit_vector);
        }

        PossibleMoves {
            forward_left_movers,
            forward_right_movers,
            backward_left_movers,
            backward_right_movers,
        }
    }

    /// The slide set for Light.
    pub(crate) fn slides_light(board: CheckersBitBoard) -> (r: PossibleMoves)
        ensures
            r.forward_left_movers == light_slide_fl(board.pieces, board.color, board.kings),
            r.forward_right_movers == light_slide_fr(board.pieces, board.color, board.kings),
            r.backward_left_movers == light_slide_bl(board.pieces, board.color),
            r.backward_right_movers == light_slide_br(board.pieces, board.color),
    {
        let not_occupied = !board.pieces_bits();
        let friendly_pieces = board.pieces_bits() & !board.color_bits();
        let friendly_kings = friendly_pieces & board.king_bits();

        let backward_left_movers = rotate_right(not_occupied, 31) & friendly_pieces & SLIDE_BL_MASK;
        let backward_right_movers = rotate_right(not_occupied, 25) & friendly_pieces
            & SLIDE_BR_MASK;
        let forward_left_movers: u32;
        let forward_right_movers: u32;

        if friendly_kings > 0 {
            forward_left_movers = rotate_right(not_occupied, 7) & friendly_kings & SLIDE_FL_MASK;
            forward_right_movers = rotate_right(not_occupied, 1) & friendly_kings & SLIDE_FR_MASK;
        } else {
            forward_left_movers = 0;
            forward_right_movers = 0;
            assert(forall|x: u32, m: u32| (x & 0u32) & m == 0u32) by (bit_vector);
        }

        PossibleMoves {
            forward_left_movers,
            forward_right_movers,
            backward_left_movers,
            backward_right_movers,
        }
    }

    /// The jump set for Dark, with the flag bit.
    pub(crate) fn jumps_dark(board: CheckersBitBoard) -> (r: PossibleMoves)
        ensures
            r.forward_left_movers == dark_jump_fl(board.pieces, board.color),
            r.forward_right_movers == dark_jump_fr(board.pieces, board.color),
            r.backward_left_movers == dark_jump_bl(board.pieces, board.color, board.kings),
            r.backward_right_movers == dark_jump_br(board.pieces, board.color, board.kings) | (
            if spec_has_jumps_dark(board) {
                2u32
            } else {
                0u32
            }),
    {
        let not_occupied = !board.pieces_bits();
        let enemy_pieces = board.pieces_bits() & !board.color_bits();
        let friendly_pieces = board.pieces_bits() & board.color_bits();
        let friendly_kings = friendly_pieces & board.king_bits();

        let forward_left_movers = rotate_right(not_occupied, 14) & rotate_right(enemy_pieces, 7)
            & friendly_pieces & JUMP_FL_MASK;
        let forward_right_movers = rotate_right(not_occupied, 2) & rotate_right(enemy_pieces, 1)
            & friendly_pieces & JUMP_FR_MASK;
        let backward_left_movers: u32;
        let backward_right_movers: u32;

        if friendly_kings > 0 {
            backward_left_movers = rotate_right(not_occupied, 30) & rotate_right(enemy_pieces, 31)
                & friendly_kings & JUMP_BL_MASK;
            backward_right_movers = rotate_right(not_occupied, 18) & rotate_right(enemy_pieces, 25)
                & friendly_kings & JUMP_BR_MASK;
        } else {
            backward_left_movers = 0;
            backward_right_movers = 0;
            assert(forall|x: u32, y: u32, m: u32| (x & y) & 0u32 & m == 0u32) by (bit_vector);
        }

        proof {
            lemma_or4_zero(
                forward_left_movers,
                forward_right_movers,
                backward_left_movers,
                backward_right_movers,
            );
        }
        let can_jump: u32 = if forward_left_movers != 0 || forward_right_movers != 0
            || backward_left_movers != 0 || backward_right_movers != 0 {
            2
        } else {
            0
        };

        PossibleMoves {
            forward_left_movers,
            forward_right_movers,
            backward_left_movers,
            backward_right_movers: backward_right_movers | can_jump,
        }
    }

    /// The jump set for Light, with the flag bit.
    pub(crate) fn jumps_light(board: CheckersBitBoard) -> (r: PossibleMoves)
        ensures
            r.forward_left_movers == light_jump_fl(board.pieces, board.color, board.kings),
            r.forward_right_movers == light_jump_fr(board.pieces, board.color, board.kings),
            r.backward_left_movers == light_jump_bl(board.pieces, board.color),
            r.backward_right_movers == light_jump_br(board.pieces, board.color) | (
            if spec_has_jumps_light(board) {
                2u32
            } else {
                0u32
            }),
    {
        let not_occupied = !board.pieces_bits();
        let enemy_pieces = board.pieces_bits() & board.color_bits();
        let friendly_pieces = board.pieces_bits() & !board.color_bits();
        let friendly_kings = friendly_pieces & board.king_bits();

        let backward_left_movers = rotate_right(not_occupied, 30) & rotate_right(enemy_pieces, 31)
            & friendly_pieces & JUMP_BL_MASK;
        let backward_right_movers = rotate_right(not_occupied, 18) & rotate_right(enemy_pieces, 25)
            & friendly_pieces & JUMP_BR_MASK;
        let forward_left_movers: u32;
        let forward_right_movers: u32;

        if friendly_kings > 0 {
            forward_left_movers = rotate_right(not_occupied, 14) & rotate_right(enemy_pieces, 7)
                & friendly_kings & JUMP_FL_MASK;
            forward_right_movers = rotate_right(not_occupied, 2) & rotate_right(enemy_pieces, 1)
                & friendly_kings & JUMP_FR_MASK;
        } else {
            forward_left_movers = 0;
            forward_right_movers = 0;
            assert(forall|x: u32, y: u32, m: u32| (x & y) & 0u32 & m == 0u32) by (bit_vector);
        }

        proof {
            lemma_or4_zero(
                forward_left_movers,
                forward_right_movers,
                backward_left_movers,
                backward_right_movers,
            );
        }
        let can_jump: u32 = if forward_left_movers != 0 || forward_right_movers != 0
            || backward_left_movers != 0 || backward_right_movers != 0 {
            2
        } else {
            0
        };

        PossibleMoves {
            forward_left_movers,
            forward_right_movers,
            backward_left_movers,
            backward_right_movers: backward_right_movers | can_jump,
        }
    }

    /// Whether Dark, to move, has a jump: the or of the four jump-space
    /// products, without carrying the four separate mover words.
    pub(crate) fn has_jumps_dark(board: CheckersBitBoard) -> (r: bool)
        ensures
            r == spec_has_jumps_dark(board),
    {
        let p = board.pieces_bits();
        let c = board.color_bits();
        let k = board.king_bits();
        let not_occupied = !p;
        let enemy_pieces = p & !c;
        let friendly_pieces = p & c;

        let forward_left_spaces = rotate_right(not_occupied, 14) & rotate_right(enemy_pieces, 7)
            & JUMP_FL_MASK;
        let forward_right_spaces = rotate_right(not_occupied, 2) & rotate_right(enemy_pieces, 1)
            & JUMP_FR_MASK;
        let forward_spaces = forward_left_spaces | forward_right_spaces;

        if k > 0 {
            let backward_left_spaces = rotate_right(not_occupied, 30) & rotate_right(
                enemy_pieces,
                31,
            ) & JUMP_BL_MASK;
            let backward_right_spaces = rotate_right(not_occupied, 18) & rotate_right(
                enemy_pieces,
                25,
            ) & JUMP_BR_MASK;
            let backward_spaces = backward_left_spaces | backward_right_spaces;

            let backward_spaces = k & backward_spaces;
            proof {
                lemma_dark_jump_spaces(p, c, k);
            }
            friendly_pieces & (forward_spaces | backward_spaces) != 0
        } else {
            proof {
                lemma_dark_jump_spaces(p, c, k);
            }
            friendly_pieces & forward_spaces != 0
        }
    }

    /// Whether Light, to move, has a jump: the or of the four jump-space
    /// products, without carrying the four separate mover words.
    pub(crate) fn has_jumps_light(board: CheckersBitBoard) -> (r: bool)
        ensures
            r == spec_has_jumps_light(board),
    {
        let p = board.pieces_bits();
        let c = board.color_bits();
        let k = board.king_bits();
        let not_occupied = !p;
        let enemy_pieces = p & c;
        let friendly_pieces = p & !c;

        let backward_left_spaces = rotate_right(not_occupied, 30) & rotate_right(enemy_pieces, 31)
            & JUMP_BL_MASK;
        let backward_right_spaces = rotate_right(not_occupied, 18) & rotate_right(enemy_pieces, 25)
            & JUMP_BR_MASK;
        let backward_spaces = backward_left_spaces | backward_right_spaces;

        if k > 0 {
            let forward_left_spaces = rotate_right(not_occupied, 14) & rotate_right(
                enemy_pieces,
                7,
            ) & JUMP_FL_MASK;
            let forward_right_spaces = rotate_right(not_occupied, 2) & rotate_right(
                enemy_pieces,
                1,
            ) & JUMP_FR_MASK;
            let forward_spaces = forward_left_spaces | forward_right_spaces;

            let forward_spaces = k & forward_spaces;
            proof {
                lemma_light_jump_spaces(p, c, k);
            }
            friendly_pieces & (forward_spaces | backward_spaces) != 0
        } else {
            proof {
                lemma_light_jump_spaces(p, c, k);
            }
            friendly_pieces & backward_spaces != 0
        }
    }

    /// Whether the side to move has a jump (so that slides are illegal).
    pub fn has_jumps(board: CheckersBitBoard) -> (r: bool)
        ensures
            r == spec_has_jumps(board),
    {
        match board.turn() {
            PieceColor::Light => Self::has_jumps_light(board),
            PieceColor::Dark => Self::has_jumps_dark(board),
        }
    }

    /// Whether the piece on `value` has a jump, for the side to move.
    pub fn has_jumps_at(board: CheckersBitBoard, value: usize) -> (r: bool)
        requires
            value < 32,
        ensures
            board.turn is Dark ==> r == bit32(
                dark_jump_fl(board.pieces, board.color) | dark_jump_fr(board.pieces, board.color)
                    | dark_jump_bl(board.pieces, board.color, board.kings) | dark_jump_br(
                    board.pieces,
                    board.color,
                    board.kings,
                ),
                value as u32,
            ),
            board.turn is Light ==> r == bit32(
                light_jump_fl(board.pieces, board.color, board.kings) | light_jump_fr(
                    board.pieces,
                    board.color,
                    board.kings,
                ) | light_jump_bl(board.pieces, board.color) | light_jump_br(
                    board.pieces,
                    board.color,
                ),
                value as u32,
            ),
    {
        match board.turn() {
            PieceColor::Dark => {
                let j = Self::jumps_dark(board);
                let all = j.forward_left_movers | j.forward_right_movers | j.backward_left_movers
                    | (j.backward_right_movers & NOT_JUMP_FLAG);
                let v = value as u32;
                proof {
                    let p = board.pieces;
                    let c = board.color;
                    let k = board.kings;
                    let br = dark_jump_br(p, c, k);
                    lemma_jump_br_flag_clear(rotr(!p, 18) & rotr(p & !c, 25) & (p & c & k));
                    lemma_flag_strip(
                        br,
                        if spec_has_jumps_dark(board) {
                            2u32
                        } else {
                            0u32
                        },
                    );
                    assert((all >> v) & 1u32 <= 1u32) by (bit_vector);
                }
                (all >> v) & 1 != 0
            },
            PieceColor::Light => {
                let j = Self::jumps_light(board);
                let all = j.forward_left_movers | j.forward_right_movers | j.backward_left_movers
                    | (j.backward_right_movers & NOT_JUMP_FLAG);
                let v = value as u32;
                proof {
                    let p = board.pieces;
                    let c = board.color;
                    let k = board.kings;
                    let br = light_jump_br(p, c);
                    lemma_jump_br_flag_clear(rotr(!p, 18) & rotr(p & c, 25) & (p & !c));
                    lemma_flag_strip(
                        br,
                        if spec_has_jumps_light(board) {
                            2u32
                        } else {
                            0u32
                        },
                    );
                    assert((all >> v) & 1u32 <= 1u32) by (bit_vector);
                }
                (all >> v) & 1 != 0
            },
        }
    }

    /// Dark's legal plies: jumps when any exist, else slides.
    pub(crate) fn dark_moves(board: CheckersBitBoard) -> (r: PossibleMoves)
        requires
            board.turn is Dark,
        ensures
            r == spec_moves(board),
    {
        let jumps = Self::jumps_dark(board);
        proof {
            let p = board.pieces;
            let c = board.color;
            let k = board.kings;
            lemma_jump_br_flag_clear(rotr(!p, 18) & rotr(p & !c, 25) & (p & c & k));
            lemma_jump_flag_empty(
                dark_jump_fl(p, c),
                dark_jump_fr(p, c),
                dark_jump_bl(p, c, k),
                dark_jump_br(p, c, k),
            );
        }
        if jumps.is_empty() {
            Self::slides_dark(board)
        } else {
            jumps
        }
    }

    /// Light's legal plies: jumps when any exist, else slides.
    pub(crate) fn light_moves(board: CheckersBitBoard) -> (r: PossibleMoves)
        requires
            board.turn is Light,
        ensures
            r == spec_moves(board),
    {
        let jumps = Self::jumps_light(board);
        proof {
            let p = board.pieces;
            let c = board.color;
            let k = board.kings;
            lemma_jump_br_flag_clear(rotr(!p, 18) & rotr(p & c, 25) & (p & !c));
            lemma_jump_flag_empty(
                light_jump_fl(p, c, k),
                light_jump_fr(p, c, k),
                light_jump_bl(p, c),
                light_jump_br(p, c),
            );
        }
        if jumps.is_empty() {
            Self::slides_light(board)
        } else {
            jumps
        }
    }

    /// The legal plies of the side to move.
    pub fn moves(board: CheckersBitBoard) -> (r: PossibleMoves)
        ensures
            r == spec_moves(board),
    {
        match board.turn() {
            PieceColor::Dark => Self::dark_moves(board),
            PieceColor::Light => Self::light_moves(board),
        }
    }

    /// Returns true if no moves are possible.
    pub fn is_empty(self) -> (r: bool)
        ensures
            r == ((self.backward_left_movers | self.forward_left_movers
                | self.forward_right_movers | (self.backward_right_movers & NOT_JUMP_FLAG))
                == 0),
    {
        (self.backward_left_movers | self.forward_left_movers | self.forward_right_movers
            | (self.backward_right_movers & 4294967293)) == 0
    }

    /// Returns true if the set holds jumps.
    pub fn can_jump(self) -> (r: bool)
        ensures
            r == ((self.backward_right_movers & 2) != 0),
    {
        (self.backward_right_movers & 2) != 0
    }

    /// Returns true if the given move is in the set: its square can move in
    /// its direction, and it is a jump exactly when the set holds jumps.
    pub fn contains(self, checker_move: Move) -> (r: bool)
        ensures
            r == (checker_move.spec_is_jump() == ((self.backward_right_movers & 2) != 0) && bit32(
                match checker_move.spec_direction() {
                    MoveDirection::ForwardLeft => self.forward_left_movers,
                    MoveDirection::ForwardRight => self.forward_right_movers,
                    MoveDirection::BackwardLeft => self.backward_left_movers,
                    MoveDirection::BackwardRight => self.backward_right_movers,
                },
                checker_move.spec_start(),
            )),
    {
        if checker_move.is_jump() != self.can_jump() {
            return false;
        }
        let bits = match checker_move.direction() {
            MoveDirection::ForwardLeft => self.forward_left_movers,
            MoveDirection::ForwardRight => self.forward_right_movers,
            MoveDirection::BackwardLeft => self.backward_left_movers,
            MoveDirection::BackwardRight => self.backward_right_movers,
        };
        (bits >> checker_move.start()) & 1 == 1
    }
}

/// The or of four words is zero exactly when each of them is zero.
pub proof fn lemma_or4_zero(fl: u32, fr: u32, bl: u32, br: u32)
    ensures
        ((fl | fr | bl | br) != 0) == (fl != 0 || fr != 0 || bl != 0 || br != 0),
{
    assert(((fl | fr | bl | br) != 0) == (fl != 0 || fr != 0 || bl != 0 || br != 0))
        by (bit_vector);
}

/// Or'ing the flag bit into a word that does not carry it, then masking the
/// flag back out, returns the word.
proof fn lemma_flag_strip(br: u32, flag: u32)
    requires
        br & 2u32 == 0,
        flag == 2u32 || flag == 0u32,
    ensures
        (br | flag) & NOT_JUMP_FLAG == br,
{
    assert(br & 2u32 == 0 ==> (br | 2u32) & 0xFFFF_FFFDu32 == br && (br | 0u32)
        & 0xFFFF_FFFDu32 == br) by (bit_vector);
}

/// A raw jump word never carries the flag bit: the backward-right jump mask
/// keeps bit 1 clear.
proof fn lemma_jump_br_flag_clear(x: u32)
    ensures
        (x & JUMP_BR_MASK) & 2u32 == 0,
{
    assert((x & 0b11111100111100001100110000111100u32) & 2u32 == 0) by (bit_vector);
}

/// A jump set is empty exactly when its four raw words are zero, even after
/// the flag bit is or'd in and masked back out.
proof fn lemma_jump_flag_empty(fl: u32, fr: u32, bl: u32, br: u32)
    requires
        br & 2u32 == 0,
    ensures
        ((bl | fl | fr | ((br | (if (fl | fr | bl | br) != 0 {
            2u32
        } else {
            0u32
        })) & NOT_JUMP_FLAG)) == 0) == ((fl | fr | bl | br) == 0),
        (fl == 0 && fr == 0 && bl == 0 && ((br | (if (fl | fr | bl | br) != 0 {
            2u32
        } else {
            0u32
        })) & NOT_JUMP_FLAG) == 0) == ((fl | fr | bl | br) == 0),
{
    if (fl | fr | bl | br) != 0 {
        assert(br & 2u32 == 0 ==> ((bl | fl | fr | ((br | 2u32) & 0xFFFF_FFFDu32)) == 0) == ((fl
            | fr | bl | br) == 0)) by (bit_vector);
        assert(br & 2u32 == 0 ==> (fl == 0 && fr == 0 && bl == 0 && ((br | 2u32)
            & 0xFFFF_FFFDu32) == 0) == ((fl | fr | bl | br) == 0)) by (bit_vector);
    } else {
        assert(br & 2u32 == 0 ==> ((bl | fl | fr | ((br | 0u32) & 0xFFFF_FFFDu32)) == 0) == ((fl
            | fr | bl | br) == 0)) by (bit_vector);
        assert(br & 2u32 == 0 ==> (fl == 0 && fr == 0 && bl == 0 && ((br | 0u32)
            & 0xFFFF_FFFDu32) == 0) == ((fl | fr | bl | br) == 0)) by (bit_vector);
    }
}


/// The moves of one direction among squares below `n`, in ascending square
/// order: one entry for each set mover bit.
pub open spec fn dir_moves_prefix(movers: u32, dir: MoveDirection, jump: bool, n: nat) -> Seq<
    Move,
>
    recommends
        n <= 32,
    decreases n,
{
    if n == 0 {
        Seq::empty()
    } else {
        dir_moves_prefix(movers, dir, jump, (n - 1) as nat) + if bit32(movers, (n - 1) as u32) {
            seq![Move::spec_new((n - 1) as u32, dir, jump)]
        } else {
            Seq::empty()
        }
    }
}

/// Every move a set yields, in order: forward-left, forward-right,
/// backward-left, backward-right, squares ascending within each direction;
/// jumps when the flag bit is set, slides otherwise.
pub open spec fn spec_iter_moves(pm: PossibleMoves) -> Seq<Move> {
    if pm.backward_right_movers & 2 != 0 {
        dir_moves_prefix(pm.forward_left_movers, MoveDirection::ForwardLeft, true, 32)
            + dir_moves_prefix(pm.forward_right_movers, MoveDirection::ForwardRight, true, 32)
            + dir_moves_prefix(pm.backward_left_movers, MoveDirection::BackwardLeft, true, 32)
            + dir_moves_prefix(
            pm.backward_right_movers & NOT_JUMP_FLAG,
            MoveDirection::BackwardRight,
            true,
            32,
        )
    } else {
        dir_moves_prefix(pm.forward_left_movers, MoveDirection::ForwardLeft, false, 32)
            + dir_moves_prefix(pm.forward_right_movers, MoveDirection::ForwardRight, false, 32)
            + dir_moves_prefix(pm.backward_left_movers, MoveDirection::BackwardLeft, false, 32)
            + dir_moves_prefix(
            pm.backward_right_movers,
            MoveDirection::BackwardRight,
            false,
            32,
        )
    }
}

/// Decoding a freshly encoded move gives back its parts.
pub proof fn lemma_move_new_roundtrip(s: u32, dir: MoveDirection, jump: bool)
    requires
        s < 32,
    ensures
        Move::spec_new(s, dir, jump).spec_start() == s,
        Move::spec_new(s, dir, jump).spec_direction() == dir,
        Move::spec_new(s, dir, jump).spec_is_jump() == jump,
{
    let s8 = s as u8;
    let d = crate::moves::spec_direction_code(dir);
    let j: u8 = if jump {
        1u8
    } else {
        0u8
    };
    assert(s8 < 32 && d < 4 && j < 2 ==> ((((s8 << 3) | (d << 1) | j) >> 3) & 0b11111) == s8 && ((
    ((s8 << 3) | (d << 1) | j) >> 1) & 0b11) == d && (((s8 << 3) | (d << 1) | j) & 1) == j)
        by (bit_vector);
}

/// What a direction's prefix holds: exactly the encoded moves of the set
/// mover bits below `n`.
pub proof fn lemma_dir_prefix_contains(movers: u32, dir: MoveDirection, jump: bool, n: nat)
    requires
        n <= 32,
    ensures
        forall|m: Move|
            dir_moves_prefix(movers, dir, jump, n).contains(m) ==> m.spec_direction() == dir
                && m.spec_is_jump() == jump && m.spec_start() < n && bit32(
                movers,
                m.spec_start(),
            ),
        forall|s: u32|
            s < n && bit32(movers, s) ==> dir_moves_prefix(movers, dir, jump, n).contains(
                #[trigger] Move::spec_new(s, dir, jump),
            ),
    decreases n,
{
    if n > 0 {
        lemma_dir_prefix_contains(movers, dir, jump, (n - 1) as nat);
        let prev = dir_moves_prefix(movers, dir, jump, (n - 1) as nat);
        let full = dir_moves_prefix(movers, dir, jump, n);
        if bit32(movers, (n - 1) as u32) {
            lemma_move_new_roundtrip((n - 1) as u32, dir, jump);
            assert(full[full.len() - 1] == Move::spec_new((n - 1) as u32, dir, jump));
            assert forall|m: Move| full.contains(m) implies m.spec_direction() == dir
                && m.spec_is_jump() == jump && m.spec_start() < n && bit32(
                movers,
                m.spec_start(),
            ) by {
                let i = choose|i: int| 0 <= i < full.len() && full[i] == m;
                if i < prev.len() {
                    assert(prev.contains(m));
                }
            }
            assert forall|s: u32| s < n && bit32(movers, s) implies full.contains(
                #[trigger] Move::spec_new(s, dir, jump),
            ) by {
                if s < n - 1 {
                    assert(prev.contains(Move::spec_new(s, dir, jump)));
                    let i = choose|i: int| 0 <= i < prev.len() && prev[i] == Move::spec_new(
                        s,
                        dir,
                        jump,
                    );
                    assert(full[i] == Move::spec_new(s, dir, jump));
                } else {
                    assert(full[full.len() - 1] == Move::spec_new(s, dir, jump));
                }
            }
        } else {
            assert(full =~= prev);
        }
    }
}


/// A direction's prefix holds at most one move per square below `n`.
proof fn lemma_dir_prefix_len(movers: u32, dir: MoveDirection, jump: bool, n: nat)
    requires
        n <= 32,
    ensures
        dir_moves_prefix(movers, dir, jump, n).len() <= n,
    decreases n,
{
    if n > 0 {
        lemma_dir_prefix_len(movers, dir, jump, (n - 1) as nat);
    }
}

/// A legal set yields at most one move per direction and square.
pub proof fn lemma_iter_moves_len(pm: PossibleMoves)
    ensures
        spec_iter_moves(pm).len() <= 128,
{
    if pm.backward_right_movers & 2 != 0 {
        lemma_dir_prefix_len(pm.forward_left_movers, MoveDirection::ForwardLeft, true, 32);
        lemma_dir_prefix_len(pm.forward_right_movers, MoveDirection::ForwardRight, true, 32);
        lemma_dir_prefix_len(pm.backward_left_movers, MoveDirection::BackwardLeft, true, 32);
        lemma_dir_prefix_len(
            pm.backward_right_movers & NOT_JUMP_FLAG,
            MoveDirection::BackwardRight,
            true,
            32,
        );
    } else {
        lemma_dir_prefix_len(pm.forward_left_movers, MoveDirection::ForwardLeft, false, 32);
        lemma_dir_prefix_len(pm.forward_right_movers, MoveDirection::ForwardRight, false, 32);
        lemma_dir_prefix_len(pm.backward_left_movers, MoveDirection::BackwardLeft, false, 32);
        lemma_dir_prefix_len(
            pm.backward_right_movers,
            MoveDirection::BackwardRight,
            false,
            32,
        );
    }
}

/// An iterator of the moves in a set, in a canonical order.
pub struct PossibleMovesIter {
    /// The collected moves.
    pub moves: Vec<Move>,
    /// The next index to yield.
    pub index: usize,
}

impl PossibleMovesIter {
    /// An iterator with no moves in it.
    pub fn empty() -> (r: Self)
        ensures
            r.moves@ == Seq::<Move>::empty(),
            r.index == 0,
    {
        PossibleMovesIter { moves: Vec::new(), index: 0 }
    }

    /// How many moves the iterator holds in all.
    pub fn length(&self) -> (r: usize)
        ensures
            r == self.moves@.len(),
    {
        self.moves.len()
    }

    /// The index of the next move to yield.
    pub fn index(&self) -> (r: usize)
        ensures
            r == self.index,
    {
        self.index
    }

    /// Yields the next move, or `None` when the iterator is exhausted.
    pub fn next(&mut self) -> (r: Option<Move>)
        ensures
            final(self).moves == old(self).moves,
            old(self).index < old(self).moves@.len() ==> r == Some(
                old(self).moves@[old(self).index as int],
            ) && final(self).index == old(self).index + 1,
            old(self).index >= old(self).moves@.len() ==> r == None::<Move> && final(self).index
                == old(self).index,
    {
        if self.index < self.moves.len() {
            let m = self.moves[self.index];
            self.index = self.index + 1;
            Some(m)
        } else {
            None
        }
    }

    /// Appends a forward-left slide from `square` when its mover bit is set.
    pub fn add_slide_forward_left(&mut self, square: usize, possible_moves: PossibleMoves)
        requires
            square < 32,
        ensures
            final(self).index == old(self).index,
            final(self).moves@ == old(self).moves@ + if bit32(
                possible_moves.forward_left_movers,
                square as u32,
            ) {
                seq![Move::spec_new(square as u32, MoveDirection::ForwardLeft, false)]
            } else {
                Seq::<Move>::empty()
            },
    {
        let sq = square as u32;
        proof {
            let w = possible_moves.forward_left_movers;
            assert((w >> sq) & 1u32 <= 1u32) by (bit_vector);
        }
        if (possible_moves.forward_left_movers >> sq) & 1 != 0 {
            self.moves.push(Move::new(square, MoveDirection::ForwardLeft, false));
        } else {
            proof {
                assert(self.moves@ =~= old(self).moves@ + Seq::<Move>::empty());
            }
        }
    }

    /// Appends a forward-right slide from `square` when its mover bit is set.
    pub fn add_slide_forward_right(&mut self, square: usize, possible_moves: PossibleMoves)
        requires
            square < 32,
        ensures
            final(self).index == old(self).index,
            final(self).moves@ == old(self).moves@ + if bit32(
                possible_moves.forward_right_movers,
                square as u32,
            ) {
                seq![Move::spec_new(square as u32, MoveDirection::ForwardRight, false)]
            } else {
                Seq::<Move>::empty()
            },
    {
        let sq = square as u32;
        proof {
            let w = possible_moves.forward_right_movers;
            assert((w >> sq) & 1u32 <= 1u32) by (bit_vector);
        }
        if (possible_moves.forward_right_movers >> sq) & 1 != 0 {
            self.moves.push(Move::new(square, MoveDirection::ForwardRight, false));
        } else {
            proof {
                assert(self.moves@ =~= old(self).moves@ + Seq::<Move>::empty());
            }
        }
    }

    /// Appends a backward-left slide from `square` when its mover bit is set.
    pub fn add_slide_backward_left(&mut self, square: usize, possible_moves: PossibleMoves)
        requires
            square < 32,
        ensures
            final(self).index == old(self).index,
            final(self).moves@ == old(self).moves@ + if bit32(
                possible_moves.backward_left_movers,
                square as u32,
            ) {
                seq![Move::spec_new(square as u32, MoveDirection::BackwardLeft, false)]
            } else {
                Seq::<Move>::empty()
            },
    {
        let sq = square as u32;
        proof {
            let w = possible_moves.backward_left_movers;
            assert((w >> sq) & 1u32 <= 1u32) by (bit_vector);
        }
        if (possible_moves.backward_left_movers >> sq) & 1 != 0 {
            self.moves.push(Move::new(square, MoveDirection::BackwardLeft, false));
        } else {
            proof {
                assert(self.moves@ =~= old(self).moves@ + Seq::<Move>::empty());
            }
        }
    }

    /// Appends a backward-right slide from `square` when its mover bit is
    /// set.
    pub fn add_slide_backward_right(&mut self, square: usize, possible_moves: PossibleMoves)
        requires
            square < 32,
        ensures
            final(self).index == old(self).index,
            final(self).moves@ == old(self).moves@ + if bit32(
                possible_moves.backward_right_movers,
                square as u32,
            ) {
                seq![Move::spec_new(square as u32, MoveDirection::BackwardRight, false)]
            } else {
                Seq::<Move>::empty()
            },
    {
        let sq = square as u32;
        proof {
            let w = possible_moves.backward_right_movers;
            assert((w >> sq) & 1u32 <= 1u32) by (bit_vector);
        }
        if (possible_moves.backward_right_movers >> sq) & 1 != 0 {
            self.moves.push(Move::new(square, MoveDirection::BackwardRight, false));
        } else {
            proof {
                assert(self.moves@ =~= old(self).moves@ + Seq::<Move>::empty());
            }
        }
    }

    /// Appends a forward-left jump from `square` when its mover bit is set.
    pub fn add_jump_forward_left(&mut self, square: usize, possible_moves: PossibleMoves)
        requires
            square < 32,
        ensures
            final(self).index == old(self).index,
            final(self).moves@ == old(self).moves@ + if bit32(
                possible_moves.forward_left_movers,
                square as u32,
            ) {
                seq![Move::spec_new(square as u32, MoveDirection::ForwardLeft, true)]
            } else {
                Seq::<Move>::empty()
            },
    {
        let sq = square as u32;
        proof {
            let w = possible_moves.forward_left_movers;
            assert((w >> sq) & 1u32 <= 1u32) by (bit_vector);
        }
        if (possible_moves.forward_left_movers >> sq) & 1 != 0 {
            self.moves.push(Move::new(square, MoveDirection::ForwardLeft, true));
        } else {
            proof {
                assert(self.moves@ =~= old(self).moves@ + Seq::<Move>::empty());
            }
        }
    }

    /// Appends a forward-right jump from `square` when its mover bit is set.
    pub fn add_jump_forward_right(&mut self, square: usize, possible_moves: PossibleMoves)
        requires
            square < 32,
        ensures
            final(self).index == old(self).index,
            final(self).moves@ == old(self).moves@ + if bit32(
                possible_moves.forward_right_movers,
                square as u32,
            ) {
                seq![Move::spec_new(square as u32, MoveDirection::ForwardRight, true)]
            } else {
                Seq::<Move>::empty()
            },
    {
        let sq = square as u32;
        proof {
            let w = possible_moves.forward_right_movers;
            assert((w >> sq) & 1u32 <= 1u32) by (bit_vector);
        }
        if (possible_moves.forward_right_movers >> sq) & 1 != 0 {
            self.moves.push(Move::new(square, MoveDirection::ForwardRight, true));
        } else {
            proof {
                assert(self.moves@ =~= old(self).moves@ + Seq::<Move>::empty());
            }
        }
    }

    /// Appends a backward-left jump from `square` when its mover bit is set.
    pub fn add_jump_backward_left(&mut self, square: usize, possible_moves: PossibleMoves)
        requires
            square < 32,
        ensures
            final(self).index == old(self).index,
            final(self).moves@ == old(self).moves@ + if bit32(
                possible_moves.backward_left_movers,
                square as u32,
            ) {
                seq![Move::spec_new(square as u32, MoveDirection::BackwardLeft, true)]
            } else {
                Seq::<Move>::empty()
            },
    {
        let sq = square as u32;
        proof {
            let w = possible_moves.backward_left_movers;
            assert((w >> sq) & 1u32 <= 1u32) by (bit_vector);
        }
        if (possible_moves.backward_left_movers >> sq) & 1 != 0 {
            self.moves.push(Move::new(square, MoveDirection::BackwardLeft, true));
        } else {
            proof {
                assert(self.moves@ =~= old(self).moves@ + Seq::<Move>::empty());
            }
        }
    }

    /// Appends a backward-right jump from `square` when its mover bit is set.
    pub fn add_jump_backward_right(&mut self, square: usize, possible_moves: PossibleMoves)
        requires
            square < 32,
        ensures
            final(self).index == old(self).index,
            final(self).moves@ == old(self).moves@ + if bit32(
                possible_moves.backward_right_movers,
                square as u32,
            ) {
                seq![Move::spec_new(square as u32, MoveDirection::BackwardRight, true)]
            } else {
                Seq::<Move>::empty()
            },
    {
        let sq = square as u32;
        proof {
            let w = possible_moves.backward_right_movers;
            assert((w >> sq) & 1u32 <= 1u32) by (bit_vector);
        }
        if (possible_moves.backward_right_movers >> sq) & 1 != 0 {
            self.moves.push(Move::new(square, MoveDirection::BackwardRight, true));
        } else {
            proof {
                assert(self.moves@ =~= old(self).moves@ + Seq::<Move>::empty());
            }
        }
    }
}

impl PossibleMoves {
    /// Collects the set into an iterator of encoded moves: jumps when the
    /// flag bit says so, else slides, each direction's squares ascending.
    pub fn to_iter(self) -> (r: PossibleMovesIter)
        ensures
            r.moves@ == spec_iter_moves(self),
            r.index == 0,
    {
        let mut iter = PossibleMovesIter::empty();
        if self.can_jump() {
            let mut sq: usize = 0;
            while sq < 32
                invariant
                    sq <= 32,
                    iter.index == 0,
                    iter.moves@ == dir_moves_prefix(
                        self.forward_left_movers,
                        MoveDirection::ForwardLeft,
                        true,
                        sq as nat,
                    ),
                decreases 32 - sq,
            {
                iter.add_jump_forward_left(sq, self);
                sq = sq + 1;
            }
            let ghost part1 = iter.moves@;
            let mut sq: usize = 0;
            while sq < 32
                invariant
                    sq <= 32,
                    iter.index == 0,
                    iter.moves@ == part1 + dir_moves_prefix(
                        self.forward_right_movers,
                        MoveDirection::ForwardRight,
                        true,
                        sq as nat,
                    ),
                decreases 32 - sq,
            {
                iter.add_jump_forward_right(sq, self);
                sq = sq + 1;
            }
            let ghost part2 = iter.moves@;
            let mut sq: usize = 0;
            while sq < 32
                invariant
                    sq <= 32,
                    iter.index == 0,
                    iter.moves@ == part2 + dir_moves_prefix(
                        self.backward_left_movers,
                        MoveDirection::BackwardLeft,
                        true,
                        sq as nat,
                    ),
                decreases 32 - sq,
            {
                iter.add_jump_backward_left(sq, self);
                sq = sq + 1;
            }
            let ghost part3 = iter.moves@;
            let mut sq: usize = 0;
            while sq < 32
                invariant
                    sq <= 32,
                    iter.index == 0,
                    iter.moves@ == part3 + dir_moves_prefix(
                        self.backward_right_movers & NOT_JUMP_FLAG,
                        MoveDirection::BackwardRight,
                        true,
                        sq as nat,
                    ),
                decreases 32 - sq,
            {
                if sq != 1 {
                    proof {
                        let w = self.backward_right_movers;
                        let q = sq as u32;
                        assert(q != 1 ==> (((w & 0xFFFF_FFFDu32) >> q) & 1u32 == 1u32) == ((w
                            >> q) & 1u32 == 1u32)) by (bit_vector);
                    }
                    iter.add_jump_backward_right(sq, self);
                } else {
                    proof {
                        let w = self.backward_right_movers;
                        assert(((w & 0xFFFF_FFFDu32) >> 1u32) & 1u32 != 1u32) by (bit_vector);
                        assert(iter.moves@ =~= part3 + dir_moves_prefix(
                            self.backward_right_movers & NOT_JUMP_FLAG,
                            MoveDirection::BackwardRight,
                            true,
                            (sq + 1) as nat,
                        ));
                    }
                }
                sq = sq + 1;
            }
            proof {
                assert(iter.moves@ =~= spec_iter_moves(self));
            }
        } else {
            let mut sq: usize = 0;
            while sq < 32
                invariant
                    sq <= 32,
                    iter.index == 0,
                    iter.moves@ == dir_moves_prefix(
                        self.forward_left_movers,
                        MoveDirection::ForwardLeft,
                        false,
                        sq as nat,
                    ),
                decreases 32 - sq,
            {
                iter.add_slide_forward_left(sq, self);
                sq = sq + 1;
            }
            let ghost part1 = iter.moves@;
            let mut sq: usize = 0;
            while sq < 32
                invariant
                    sq <= 32,
                    iter.index == 0,
                    iter.moves@ == part1 + dir_moves_prefix(
                        self.forward_right_movers,
                        MoveDirection::ForwardRight,
                        false,
                        sq as nat,
                    ),
                decreases 32 - sq,
            {
                iter.add_slide_forward_right(sq, self);
                sq = sq + 1;
            }
            let ghost part2 = iter.moves@;
            let mut sq: usize = 0;
            while sq < 32
                invariant
                    sq <= 32,
                    iter.index == 0,
                    iter.moves@ == part2 + dir_moves_prefix(
                        self.backward_left_movers,
                        MoveDirection::BackwardLeft,
                        false,
                        sq as nat,
                    ),
                decreases 32 - sq,
            {
                iter.add_slide_backward_left(sq, self);
                sq = sq + 1;
            }
            let ghost part3 = iter.moves@;
            let mut sq: usize = 0;
            while sq < 32
                invariant
                    sq <= 32,
                    iter.index == 0,
                    iter.moves@ == part3 + dir_moves_prefix(
                        self.backward_right_movers,
                        MoveDirection::BackwardRight,
                        false,
                        sq as nat,
                    ),
                decreases 32 - sq,
            {
                iter.add_slide_backward_right(sq, self);
                sq = sq + 1;
            }
            proof {
                assert(iter.moves@ =~= spec_iter_moves(self));
            }
        }
        iter
    }
}

} // verus!
