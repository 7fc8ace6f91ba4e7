//! The laws of the engine: what holds of every board, ply and evaluation.
//!
//! Each public proof function states one law over the spec functions that
//! the executable contracts use, and proves it once and for all.

use vstd::prelude::*;

use crate::bits::{bit32, lemma_pop_change_one, pop32};
use crate::board::CheckersBitBoard;
use crate::eval::{Evaluation, LOSS_VALUE, NULL_MAX_VALUE, NULL_MIN_VALUE, WIN_VALUE};
use crate::moves::{Move, MoveDirection};
use crate::possible_moves::{
    dark_jump_br, dir_moves_prefix, lemma_dir_prefix_contains, lemma_move_new_roundtrip,
    light_jump_br, rotr, spec_has_jumps, spec_iter_moves, spec_legal, spec_moves,
    spec_real_movers, JUMP_BR_MASK, NOT_JUMP_FLAG, SLIDE_BR_MASK,
};

verus! {

/// Bit `s` of a rotation is the rotated bit of the word.
proof fn lemma_rotr_bit(x: u32, n: u32, s: u32)
    requires
        0 < n < 32,
        s < 32,
    ensures
        bit32(rotr(x, n), s) == bit32(x, ((s + n) % 32) as u32),
{
    assert(bit32(rotr(x, n), s) == bit32(x, ((s + n) % 32) as u32)) by (bit_vector)
        requires
            0 < n < 32,
            s < 32,
    ;
}

/// A bit of a conjunction is the conjunction of the bits.
proof fn lemma_and_bit(x: u32, y: u32, s: u32)
    requires
        s < 32,
    ensures
        bit32(x & y, s) == (bit32(x, s) && bit32(y, s)),
{
    assert(bit32(x & y, s) == (bit32(x, s) && bit32(y, s))) by (bit_vector)
        requires
            s < 32,
    ;
}

/// A bit of a complement is the negated bit.
proof fn lemma_not_bit(x: u32, s: u32)
    requires
        s < 32,
    ensures
        bit32(!x, s) == !bit32(x, s),
{
    assert(bit32(!x, s) == !bit32(x, s)) by (bit_vector)
        requires
            s < 32,
    ;
}

/// A set bit makes the word non-zero.
proof fn lemma_bit_nonzero(x: u32, s: u32)
    requires
        bit32(x, s),
    ensures
        x != 0,
{
    assert((x >> s) & 1u32 == 1u32 ==> x != 0) by (bit_vector);
}

/// A non-zero word has a set bit: its lowest one.
proof fn lemma_nonzero_bit(x: u32) -> (s: u32)
    requires
        x != 0,
    ensures
        s < 32,
        bit32(x, s),
{
    vstd::std_specs::bits::axiom_u32_trailing_zeros(x);
    vstd::std_specs::bits::u32_trailing_zeros(x)
}

/// Clearing bit `s` clears exactly bit `s`.
proof fn lemma_clear_bit(x: u32, s: u32)
    by (bit_vector)
    requires
        s < 32,
    ensures
        !bit32(x & !(1u32 << s), s),
        forall|i: u32| i < 32 && i != s ==> #[trigger] bit32(x & !(1u32 << s), i) == bit32(x, i),
{
}

/// Setting bit `s` sets exactly bit `s`.
proof fn lemma_set_bit(x: u32, s: u32)
    by (bit_vector)
    requires
        s < 32,
    ensures
        bit32(x | (1u32 << s), s),
        forall|i: u32| i < 32 && i != s ==> #[trigger] bit32(x | (1u32 << s), i) == bit32(x, i),
{
}

/// The backward-right jump word never carries the flag bit.
proof fn lemma_jump_br_no_flag(x: u32)
    ensures
        (x & JUMP_BR_MASK) & 2u32 == 0,
        (x & JUMP_BR_MASK) & NOT_JUMP_FLAG == x & JUMP_BR_MASK,
        ((x & JUMP_BR_MASK) | 2u32) & NOT_JUMP_FLAG == x & JUMP_BR_MASK,
{
    assert((x & 0b11111100111100001100110000111100u32) & 2u32 == 0 && (x
        & 0b11111100111100001100110000111100u32) & 0xFFFF_FFFDu32 == x
        & 0b11111100111100001100110000111100u32 && ((x & 0b11111100111100001100110000111100u32)
        | 2u32) & 0xFFFF_FFFDu32 == x & 0b11111100111100001100110000111100u32) by (bit_vector);
}

/// The backward-right slide word never carries the flag bit.
proof fn lemma_slide_br_no_flag(x: u32)
    ensures
        (x & SLIDE_BR_MASK) & 2u32 == 0,
        (x & SLIDE_BR_MASK) & NOT_JUMP_FLAG == x & SLIDE_BR_MASK,
{
    assert((x & 0b11111001111110011110110110111100u32) & 2u32 == 0 && (x
        & 0b11111001111110011110110110111100u32) & 0xFFFF_FFFDu32 == x
        & 0b11111001111110011110110110111100u32) by (bit_vector);
}

/// The flag bit of the legal set is set exactly when the position has
/// jumps, and masking it away gives back the raw backward-right word.
proof fn lemma_moves_flag(b: CheckersBitBoard)
    ensures
        (spec_moves(b).backward_right_movers & 2u32 != 0) == spec_has_jumps(b),
        spec_has_jumps(b) ==> spec_real_movers(spec_moves(b), MoveDirection::BackwardRight) == (
        if b.turn is Dark {
            dark_jump_br(b.pieces, b.color, b.kings)
        } else {
            light_jump_br(b.pieces, b.color)
        }),
        !spec_has_jumps(b) ==> spec_real_movers(spec_moves(b), MoveDirection::BackwardRight)
            == spec_moves(b).backward_right_movers,
{
    let p = b.pieces;
    let c = b.color;
    let k = b.kings;
    if spec_has_jumps(b) {
        if b.turn is Dark {
            lemma_jump_br_no_flag(rotr(!p, 18) & rotr(p & !c, 25) & (p & c & k));
            assert((dark_jump_br(p, c, k) | 2u32) & 2u32 != 0) by (bit_vector);
        } else {
            lemma_jump_br_no_flag(rotr(!p, 18) & rotr(p & c, 25) & (p & !c));
            assert((light_jump_br(p, c) | 2u32) & 2u32 != 0) by (bit_vector);
        }
    } else {
        if b.turn is Dark {
            lemma_slide_br_no_flag(rotr(!p, 25) & (p & c & k));
        } else {
            lemma_slide_br_no_flag(rotr(!p, 25) & (p & !c));
        }
    }
}

/// Every move the iterator yields for a position's legal set is a legal ply
/// of that position.
pub proof fn lemma_iter_moves_legal(b: CheckersBitBoard)
    ensures
        forall|i: int|
            0 <= i < spec_iter_moves(spec_moves(b)).len() ==> spec_legal(
                b,
                #[trigger] spec_iter_moves(spec_moves(b))[i],
            ),
{
    let pm = spec_moves(b);
    let jumping = spec_has_jumps(b);
    lemma_moves_flag(b);
    let w_fl = pm.forward_left_movers;
    let w_fr = pm.forward_right_movers;
    let w_bl = pm.backward_left_movers;
    let w_br = pm.backward_right_movers & NOT_JUMP_FLAG;
    let a = dir_moves_prefix(w_fl, MoveDirection::ForwardLeft, jumping, 32);
    let bb = dir_moves_prefix(w_fr, MoveDirection::ForwardRight, jumping, 32);
    let cc = dir_moves_prefix(w_bl, MoveDirection::BackwardLeft, jumping, 32);
    let dd = if jumping {
        dir_moves_prefix(w_br, MoveDirection::BackwardRight, jumping, 32)
    } else {
        dir_moves_prefix(pm.backward_right_movers, MoveDirection::BackwardRight, jumping, 32)
    };
    assert(spec_iter_moves(pm) == a + bb + cc + dd);
    lemma_dir_prefix_contains(w_fl, MoveDirection::ForwardLeft, jumping, 32);
    lemma_dir_prefix_contains(w_fr, MoveDirection::ForwardRight, jumping, 32);
    lemma_dir_prefix_contains(w_bl, MoveDirection::BackwardLeft, jumping, 32);
    if jumping {
        lemma_dir_prefix_contains(w_br, MoveDirection::BackwardRight, jumping, 32);
    } else {
        lemma_dir_prefix_contains(
            pm.backward_right_movers,
            MoveDirection::BackwardRight,
            jumping,
            32,
        );
    }
    assert forall|i: int| 0 <= i < spec_iter_moves(pm).len() implies spec_legal(
        b,
        #[trigger] spec_iter_moves(pm)[i],
    ) by {
        let m = spec_iter_moves(pm)[i];
        let la = a.len() as int;
        let lb = bb.len() as int;
        let lc = cc.len() as int;
        if i < la {
            assert(a.contains(m)) by {
                assert(a[i] == m);
            }
        } else if i < la + lb {
            assert(bb.contains(m)) by {
                assert(bb[i - la] == m);
            }
        } else if i < la + lb + lc {
            assert(cc.contains(m)) by {
                assert(cc[i - la - lb] == m);
            }
        } else {
            assert(dd.contains(m)) by {
                assert(dd[i - la - lb - lc] == m);
            }
        }
    }
}

/// The number of pieces a ply leaves on the board: one fewer after a jump,
/// the same after a slide.
pub proof fn lemma_apply_piece_count(b: CheckersBitBoard, m: Move)
    requires
        spec_legal(b, m),
    ensures
        pop32(m.spec_apply(b).pieces) + (if m.spec_is_jump() {
            1nat
        } else {
            0nat
        }) == pop32(b.pieces),
{
    lemma_legal_geometry(b, m);
    let p = b.pieces;
    let s = m.spec_start();
    let e = m.spec_end_position() as u32;
    assert(s < 32) by {
        let b0 = m.0;
        assert(((b0 >> 3) & 0b11111) < 32) by (bit_vector);
    }
    let y1 = p & !(1u32 << s);
    let y2 = y1 | (1u32 << e);
    lemma_clear_bit(p, s);
    lemma_pop_change_one(p, y1, s, 32);
    lemma_set_bit(y1, e);
    lemma_pop_change_one(y1, y2, e, 32);
    assert(pop32(y2) == pop32(p));
    if m.spec_is_jump() {
        let mid = m.spec_jump_position() as u32;
        let y3 = y2 & !(1u32 << mid);
        lemma_clear_bit(y2, mid);
        lemma_pop_change_one(y2, y3, mid, 32);
        assert(bit32(y2, mid));
        assert(m.spec_apply(b).pieces == y3);
        assert(pop32(y3) + 1 == pop32(p));
    } else {
        assert(m.spec_apply(b).pieces == y2);
    }
}

/// How a ply changes the turn: a slide always passes it to the other
/// player; a jump passes it unless the same player must keep capturing.
pub proof fn lemma_apply_turn(b: CheckersBitBoard, m: Move)
    ensures
        !m.spec_is_jump() ==> m.spec_apply(b).turn == b.turn.spec_flip(),
        m.spec_is_jump() ==> m.spec_apply(b).turn == b.turn.spec_flip() || m.spec_apply(b).turn
            == b.turn,
{
}

/// The legal set is empty exactly when the side to move has no legal ply:
/// the position is a terminal loss.
pub proof fn lemma_moves_empty_iff_no_ply(b: CheckersBitBoard)
    ensures
        ((spec_moves(b).backward_left_movers | spec_moves(b).forward_left_movers | spec_moves(
            b,
        ).forward_right_movers | (spec_moves(b).backward_right_movers & NOT_JUMP_FLAG)) == 0) == !(
        exists|m: Move| #[trigger] spec_legal(b, m)),
{
    let pm = spec_moves(b);
    let jumping = spec_has_jumps(b);
    lemma_moves_flag(b);
    let w_fl = pm.forward_left_movers;
    let w_fr = pm.forward_right_movers;
    let w_bl = pm.backward_left_movers;
    let w_br = pm.backward_right_movers & NOT_JUMP_FLAG;
    let all = w_bl | w_fl | w_fr | w_br;

    if all == 0 {
        // no word has a set bit, so nothing is legal
        assert forall|m: Move| !#[trigger] spec_legal(b, m) by {
            if spec_legal(b, m) {
                let s = m.spec_start();
                let w = spec_real_movers(pm, m.spec_direction());
                assert(bit32(w, s));
                lemma_bit_nonzero(w, s);
                assert(w == w_fl || w == w_fr || w == w_bl || w == w_br);
                assert((w_bl | w_fl | w_fr | w_br) != 0) by (bit_vector)
                    requires
                        w_fl != 0 || w_fr != 0 || w_bl != 0 || w_br != 0,
                ;
            }
        }
    } else {
        // some word has a set bit; its square gives a legal ply
        crate::possible_moves::lemma_or4_zero(w_bl, w_fl, w_fr, w_br);
        if w_fl != 0 {
            let s = lemma_nonzero_bit(w_fl);
            lemma_move_new_roundtrip(s, MoveDirection::ForwardLeft, jumping);
            let m = Move::spec_new(s, MoveDirection::ForwardLeft, jumping);
            assert(spec_legal(b, m));
        } else if w_fr != 0 {
            let s = lemma_nonzero_bit(w_fr);
            lemma_move_new_roundtrip(s, MoveDirection::ForwardRight, jumping);
            let m = Move::spec_new(s, MoveDirection::ForwardRight, jumping);
            assert(spec_legal(b, m));
        } else if w_bl != 0 {
            let s = lemma_nonzero_bit(w_bl);
            lemma_move_new_roundtrip(s, MoveDirection::BackwardLeft, jumping);
            let m = Move::spec_new(s, MoveDirection::BackwardLeft, jumping);
            assert(spec_legal(b, m));
        } else {
            let s = lemma_nonzero_bit(w_br);
            lemma_move_new_roundtrip(s, MoveDirection::BackwardRight, jumping);
            let m = Move::spec_new(s, MoveDirection::BackwardRight, jumping);
            assert(spec_legal(b, m));
        }
    }
}

/// Forced capture: when the side to move has any legal ply, it has a jump
/// exactly when every legal ply is a jump.
pub proof fn lemma_forced_capture(b: CheckersBitBoard)
    requires
        exists|m: Move| #[trigger] spec_legal(b, m),
    ensures
        spec_has_jumps(b) == (forall|m: Move|
            #[trigger] spec_legal(b, m) ==> m.spec_is_jump()),
{
    if spec_has_jumps(b) {
        assert forall|m: Move|
            #[trigger] spec_legal(b, m) implies m.spec_is_jump() by {}
    } else {
        let m = choose|m: Move| #[trigger] spec_legal(b, m);
        assert(!m.spec_is_jump());
    }
}

/// Negating an evaluation twice gives it back.
pub proof fn lemma_neg_involution(x: Evaluation)
    requires
        x.valid(),
    ensures
        x.spec_neg().spec_neg() == x,
{
}

/// A forced win or loss that is strictly inside its band moves one step
/// toward the neutral band when incremented: its value gets closer to zero
/// and its sequence grows one ply longer.
pub proof fn lemma_increment_lengthens(x: Evaluation)
    requires
        x.valid(),
        x.spec_is_force_win() ==> x.0 > crate::eval::EVAL_UNIT,
        x.spec_is_force_loss() ==> x.0 < -crate::eval::EVAL_UNIT,
        x.spec_is_force_win() || x.spec_is_force_loss(),
        x.0 != NULL_MAX_VALUE,
        x.0 != NULL_MIN_VALUE,
        x.spec_force_sequence_length() matches Some(n) && n < 255,
    ensures
        x.spec_is_force_win() ==> x.spec_increment().0 == x.0 - 1,
        x.spec_is_force_loss() ==> x.spec_increment().0 == x.0 + 1,
        x.spec_increment().spec_force_sequence_length() == Some(
            (x.spec_force_sequence_length()->Some_0 + 1) as u8,
        ),
{
    if x.spec_is_force_win() {
        let d = WIN_VALUE - x.0;
        assert(0 <= d);
        assert((d + 1) % 256 == d % 256 + 1) by (nonlinear_arith)
            requires
                0 <= d,
                d % 256 < 255,
        ;
    } else {
        let d = x.0 - LOSS_VALUE;
        assert(0 <= d);
        assert((d + 1) % 256 == d % 256 + 1) by (nonlinear_arith)
            requires
                0 <= d,
                d % 256 < 255,
        ;
    }
}

/// Translating an evaluation leaves every force value unchanged.
pub proof fn lemma_translate_fixpoint(x: Evaluation, delta: i16)
    requires
        x.spec_is_force_win() || x.spec_is_force_loss(),
    ensures
        x.spec_translate(delta) == x,
{
}

/// The legal set's words, by direction, with geometry facts unpacked: a
/// legal ply starts on a friendly piece, lands on an empty square, and a
/// legal jump leaps an enemy piece.
pub proof fn lemma_legal_geometry(b: CheckersBitBoard, m: Move)
    requires
        spec_legal(b, m),
    ensures
        bit32(b.pieces, m.spec_start()),
        !bit32(b.pieces, m.spec_end_position() as u32),
        m.spec_is_jump() ==> bit32(b.pieces, m.spec_jump_position() as u32),
        m.spec_is_jump() ==> m.spec_jump_position() != m.spec_start(),
        m.spec_end_position() != m.spec_start(),
        m.spec_is_jump() ==> m.spec_jump_position() != m.spec_end_position(),
{
    let p = b.pieces;
    let c = b.color;
    let k = b.kings;
    let s = m.spec_start();
    let dir = m.spec_direction();
    let pm = spec_moves(b);
    let w = spec_real_movers(pm, dir);
    assert(s < 32) by {
        let b0 = m.0;
        assert(((b0 >> 3) & 0b11111) < 32) by (bit_vector);
    }

    let off1: u32 = match dir {
        MoveDirection::ForwardLeft => 7u32,
        MoveDirection::ForwardRight => 1u32,
        MoveDirection::BackwardLeft => 31u32,
        MoveDirection::BackwardRight => 25u32,
    };
    let off2: u32 = match dir {
        MoveDirection::ForwardLeft => 14u32,
        MoveDirection::ForwardRight => 2u32,
        MoveDirection::BackwardLeft => 30u32,
        MoveDirection::BackwardRight => 18u32,
    };
    let step1 = ((s + off1) % 32) as u32;
    let step2 = ((s + off2) % 32) as u32;

    if m.spec_is_jump() {
        // the real mover word is one of the eight jump kernels; each is a
        // conjunction of a rotated-empty factor, a rotated-foe factor, a
        // friendly factor and an edge mask
        let foes: u32 = if b.turn is Dark {
            p & !c
        } else {
            p & c
        };
        let cand: u32 = match b.turn {
            crate::color::PieceColor::Dark => match dir {
                MoveDirection::ForwardLeft => p & c,
                MoveDirection::ForwardRight => p & c,
                MoveDirection::BackwardLeft => p & c & k,
                MoveDirection::BackwardRight => p & c & k,
            },
            crate::color::PieceColor::Light => match dir {
                MoveDirection::ForwardLeft => p & !c & k,
                MoveDirection::ForwardRight => p & !c & k,
                MoveDirection::BackwardLeft => p & !c,
                MoveDirection::BackwardRight => p & !c,
            },
        };
        let mask: u32 = match dir {
            MoveDirection::ForwardLeft => crate::possible_moves::JUMP_FL_MASK,
            MoveDirection::ForwardRight => crate::possible_moves::JUMP_FR_MASK,
            MoveDirection::BackwardLeft => crate::possible_moves::JUMP_BL_MASK,
            MoveDirection::BackwardRight => JUMP_BR_MASK,
        };
        if dir is BackwardRight {
            lemma_jump_br_no_flag(rotr(!p, off2) & rotr(foes, off1) & cand);
        }
        assert(bit32(rotr(!p, off2) & rotr(foes, off1) & cand & mask, s));
        lemma_and_bit(rotr(!p, off2) & rotr(foes, off1) & cand, mask, s);
        lemma_and_bit(rotr(!p, off2) & rotr(foes, off1), cand, s);
        lemma_and_bit(rotr(!p, off2), rotr(foes, off1), s);
        lemma_rotr_bit(!p, off2, s);
        lemma_rotr_bit(foes, off1, s);
        lemma_not_bit(p, step2);
        lemma_and_bit(p, if b.turn is Dark {
            !c
        } else {
            c
        }, step1);
        if b.turn is Dark {
            lemma_and_bit(p, !c, step1);
        } else {
            lemma_and_bit(p, c, step1);
        }
        match b.turn {
            crate::color::PieceColor::Dark => match dir {
                MoveDirection::ForwardLeft => lemma_and_bit(p, c, s),
                MoveDirection::ForwardRight => lemma_and_bit(p, c, s),
                MoveDirection::BackwardLeft => {
                    lemma_and_bit(p & c, k, s);
                    lemma_and_bit(p, c, s);
                },
                MoveDirection::BackwardRight => {
                    lemma_and_bit(p & c, k, s);
                    lemma_and_bit(p, c, s);
                },
            },
            crate::color::PieceColor::Light => match dir {
                MoveDirection::ForwardLeft => {
                    lemma_and_bit(p & !c, k, s);
                    lemma_and_bit(p, !c, s);
                },
                MoveDirection::ForwardRight => {
                    lemma_and_bit(p & !c, k, s);
                    lemma_and_bit(p, !c, s);
                },
                MoveDirection::BackwardLeft => lemma_and_bit(p, !c, s),
                MoveDirection::BackwardRight => lemma_and_bit(p, !c, s),
            },
        }
    } else {
        let cand: u32 = match b.turn {
            crate::color::PieceColor::Dark => match dir {
                MoveDirection::ForwardLeft => p & c,
                MoveDirection::ForwardRight => p & c,
                MoveDirection::BackwardLeft => p & c & k,
                MoveDirection::BackwardRight => p & c & k,
            },
            crate::color::PieceColor::Light => match dir {
                MoveDirection::ForwardLeft => p & !c & k,
                MoveDirection::ForwardRight => p & !c & k,
                MoveDirection::BackwardLeft => p & !c,
                MoveDirection::BackwardRight => p & !c,
            },
        };
        let mask: u32 = match dir {
            MoveDirection::ForwardLeft => crate::possible_moves::SLIDE_FL_MASK,
            MoveDirection::ForwardRight => crate::possible_moves::SLIDE_FR_MASK,
            MoveDirection::BackwardLeft => crate::possible_moves::SLIDE_BL_MASK,
            MoveDirection::BackwardRight => SLIDE_BR_MASK,
        };
        if dir is BackwardRight {
            lemma_slide_br_no_flag(rotr(!p, off1) & cand);
        }
        assert(bit32(rotr(!p, off1) & cand & mask, s));
        lemma_and_bit(rotr(!p, off1) & cand, mask, s);
        lemma_and_bit(rotr(!p, off1), cand, s);
        lemma_rotr_bit(!p, off1, s);
        lemma_not_bit(p, step1);
        match b.turn {
            crate::color::PieceColor::Dark => match dir {
                MoveDirection::ForwardLeft => lemma_and_bit(p, c, s),
                MoveDirection::ForwardRight => lemma_and_bit(p, c, s),
                MoveDirection::BackwardLeft => {
                    lemma_and_bit(p & c, k, s);
                    lemma_and_bit(p, c, s);
                },
                MoveDirection::BackwardRight => {
                    lemma_and_bit(p & c, k, s);
                    lemma_and_bit(p, c, s);
                },
            },
            crate::color::PieceColor::Light => match dir {
                MoveDirection::ForwardLeft => {
                    lemma_and_bit(p & !c, k, s);
                    lemma_and_bit(p, !c, s);
                },
                MoveDirection::ForwardRight => {
                    lemma_and_bit(p & !c, k, s);
                    lemma_and_bit(p, !c, s);
                },
                MoveDirection::BackwardLeft => lemma_and_bit(p, !c, s),
                MoveDirection::BackwardRight => lemma_and_bit(p, !c, s),
            },
        }
    }
}

} // verus!
