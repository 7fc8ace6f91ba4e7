//! The evaluation scalar and the static material evaluation.
//!
//! An evaluation is a signed 16-bit integer with three regions: a heuristic
//! middle band, a force-win band above `FORCE_WIN_THRESHOLD` (larger means a
//! shorter mating sequence), and a force-loss band below the negated
//! threshold. A unit of the middle band is 1/16384 of a whole game.

use vstd::prelude::*;

use crate::bits::{lemma_pop32_le, count_bits, pop32};
use crate::board::CheckersBitBoard;

verus! {

/// The lowest value of the force-win band is one above this; the highest
/// value of the force-loss band is one below its negation.
pub const FORCE_WIN_THRESHOLD: i16 = 0x3FFF;

/// The value of a forced win in zero plies.
pub const WIN_VALUE: i16 = 32766;

/// The value of a forced loss in zero plies.
pub const LOSS_VALUE: i16 = -32766;

/// The greatest evaluation, above every real one; the start of a search
/// window.
pub const NULL_MAX_VALUE: i16 = 32767;

/// The least evaluation, below every real one; the start of a search window.
pub const NULL_MIN_VALUE: i16 = -32767;

/// One heuristic unit: 1/16384 of a whole game.
pub const EVAL_UNIT: i16 = 16384;

/// An evaluation of a position: positive is good for Dark.
#[derive(Debug, Clone, Copy, PartialEq, Eq, Hash, Structural)]
pub struct Evaluation(pub i16);

impl PartialOrd for Evaluation {
    fn partial_cmp(&self, other: &Self) -> (r: Option<core::cmp::Ordering>) {
        if self.0 < other.0 {
            Some(core::cmp::Ordering::Less)
        } else if self.0 == other.0 {
            Some(core::cmp::Ordering::Equal)
        } else {
            Some(core::cmp::Ordering::Greater)
        }
    }
}

impl vstd::std_specs::cmp::PartialOrdSpecImpl for Evaluation {
    open spec fn obeys_partial_cmp_spec() -> bool {
        true
    }

    open spec fn partial_cmp_spec(&self, other: &Self) -> Option<core::cmp::Ordering> {
        if self.0 < other.0 {
            Some(core::cmp::Ordering::Less)
        } else if self.0 == other.0 {
            Some(core::cmp::Ordering::Equal)
        } else {
            Some(core::cmp::Ordering::Greater)
        }
    }
}

impl Evaluation {
    /// Every evaluation the engine builds stays above `i16::MIN`, so that
    /// negation never overflows.
    pub open spec fn valid(self) -> bool {
        self.0 > i16::MIN
    }

    /// The greatest evaluation; only a search window ever holds it.
    pub fn null_max() -> (r: Self)
        ensures
            r.0 == NULL_MAX_VALUE,
    {
        Evaluation(NULL_MAX_VALUE)
    }

    /// The least evaluation; only a search window ever holds it.
    pub fn null_min() -> (r: Self)
        ensures
            r.0 == NULL_MIN_VALUE,
    {
        Evaluation(NULL_MIN_VALUE)
    }

    /// A forced win in zero plies.
    pub fn win() -> (r: Self)
        ensures
            r.0 == WIN_VALUE,
    {
        Evaluation(WIN_VALUE)
    }

    /// A forced loss in zero plies.
    pub fn loss() -> (r: Self)
        ensures
            r.0 == LOSS_VALUE,
    {
        Evaluation(LOSS_VALUE)
    }

    /// A dead-even evaluation.
    pub fn draw() -> (r: Self)
        ensures
            r.0 == 0,
    {
        Evaluation(0)
    }

    /// An evaluation with the given raw value; `i16::MIN` itself is clamped
    /// up to the least evaluation.
    pub fn from_units(value: i16) -> (r: Self)
        ensures
            r.0 == if value == i16::MIN {
                NULL_MIN_VALUE as int
            } else {
                value as int
            },
            r.valid(),
    {
        if value == i16::MIN {
            Evaluation(NULL_MIN_VALUE)
        } else {
            Evaluation(value)
        }
    }

    /// The raw value, in units of 1/16384 of a game.
    pub fn units(self) -> (r: i16)
        ensures
            r == self.0,
    {
        self.0
    }

    /// True of the force-win band.
    pub open spec fn spec_is_force_win(self) -> bool {
        self.0 > FORCE_WIN_THRESHOLD
    }

    /// Whether this evaluation is a forced win.
    pub fn is_force_win(self) -> (r: bool)
        ensures
            r == self.spec_is_force_win(),
    {
        self.0 > FORCE_WIN_THRESHOLD
    }

    /// True of the force-loss band.
    pub open spec fn spec_is_force_loss(self) -> bool {
        self.0 < -FORCE_WIN_THRESHOLD
    }

    /// Whether this evaluation is a forced loss.
    pub fn is_force_loss(self) -> (r: bool)
        ensures
            r == self.spec_is_force_loss(),
    {
        self.0 < -FORCE_WIN_THRESHOLD
    }

    /// Whether this evaluation is a forced win or a forced loss.
    pub fn is_force_sequence(self) -> (r: bool)
        ensures
            r == (self.spec_is_force_win() || self.spec_is_force_loss()),
    {
        self.is_force_win() || self.is_force_loss()
    }

    /// The number of plies of a forced sequence, truncated to a byte; `None`
    /// outside the force bands and at the two window bounds.
    pub open spec fn spec_force_sequence_length(self) -> Option<u8> {
        if self.0 == NULL_MAX_VALUE || self.0 == NULL_MIN_VALUE {
            None
        } else if self.spec_is_force_win() {
            Some(((WIN_VALUE - self.0) % 256) as u8)
        } else if self.spec_is_force_loss() {
            Some(((self.0 - LOSS_VALUE) % 256) as u8)
        } else {
            None
        }
    }

    /// The length of the forced sequence this evaluation encodes.
    pub fn force_sequence_length(self) -> (r: Option<u8>)
        ensures
            r == self.spec_force_sequence_length(),
    {
        if self.0 == NULL_MAX_VALUE || self.0 == NULL_MIN_VALUE {
            return None;
        }
        if self.is_force_win() {
            let d: i16 = WIN_VALUE - self.0;
            assert(d >= 0);
            let du: u16 = d as u16;
            let r: u8 = (du % 256) as u8;
            assert(r == (WIN_VALUE - self.0) % 256);
            Some(r)
        } else if self.is_force_loss() {
            // the raw value may sit below the loss value; the length wraps,
            // as a plain byte cast would
            let d: i32 = (self.0 as i32) - (LOSS_VALUE as i32);
            let e: i32 = (d + 256) % 256;
            let r: u8 = e as u8;
            assert(r == (self.0 - LOSS_VALUE) % 256);
            Some(r)
        } else {
            None
        }
    }

    /// The negated evaluation: a win becomes the loss of the same length.
    pub open spec fn spec_neg(self) -> Self {
        Evaluation((-self.0) as i16)
    }

    /// Negates the evaluation.
    pub fn neg(self) -> (r: Self)
        requires
            self.valid(),
        ensures
            r.0 == -self.0,
            r.valid(),
    {
        Evaluation(-self.0)
    }

    /// A force value moved one step toward the neutral band, lengthening the
    /// forced sequence by one ply; heuristic values are unchanged.
    pub open spec fn spec_increment(self) -> Self {
        if self.spec_is_force_win() {
            Evaluation((self.0 - 1) as i16)
        } else if self.spec_is_force_loss() {
            Evaluation((self.0 + 1) as i16)
        } else {
            self
        }
    }

    /// Moves a force value one step toward the neutral band.
    pub fn increment(self) -> (r: Self)
        ensures
            r == self.spec_increment(),
    {
        if self.is_force_win() {
            Evaluation(self.0 - 1)
        } else if self.is_force_loss() {
            Evaluation(self.0 + 1)
        } else {
            self
        }
    }

    /// A heuristic value translated by `delta` raw units and clamped into
    /// the win or loss value at a whole game; force values are fixpoints.
    pub open spec fn spec_translate(self, delta: i16) -> Self {
        if self.spec_is_force_win() || self.spec_is_force_loss() {
            self
        } else if self.0 + delta >= EVAL_UNIT {
            Evaluation(WIN_VALUE)
        } else if self.0 + delta <= -EVAL_UNIT {
            Evaluation(LOSS_VALUE)
        } else {
            Evaluation((self.0 + delta) as i16)
        }
    }

    /// Translates a heuristic value by `delta` raw units.
    pub fn translate(self, delta: i16) -> (r: Self)
        ensures
            r == self.spec_translate(delta),
    {
        if self.is_force_sequence() {
            return self;
        }
        let sum: i32 = (self.0 as i32) + (delta as i32);
        if sum >= EVAL_UNIT as i32 {
            Evaluation(WIN_VALUE)
        } else if sum <= -(EVAL_UNIT as i32) {
            Evaluation(LOSS_VALUE)
        } else {
            Evaluation(sum as i16)
        }
    }
}

/// Dark's worth on the board: one per man, two per king.
pub open spec fn spec_dark_worth(b: CheckersBitBoard) -> nat {
    pop32(b.pieces & b.color & !b.kings) + 2 * pop32(b.pieces & b.color & b.kings)
}

/// Light's worth on the board: one per man, two per king.
pub open spec fn spec_light_worth(b: CheckersBitBoard) -> nat {
    pop32(b.pieces & !b.color & !b.kings) + 2 * pop32(b.pieces & !b.color & b.kings)
}

/// The static evaluation: the material balance `(d - l) / (d + l)` scaled to
/// raw units and truncated toward zero, clamped to the win and loss values
/// when one side has nothing left, and a draw on an empty board.
pub open spec fn spec_eval_position(b: CheckersBitBoard) -> Evaluation {
    let d = spec_dark_worth(b);
    let l = spec_light_worth(b);
    if d + l == 0 {
        Evaluation(0)
    } else if l == 0 {
        Evaluation(WIN_VALUE)
    } else if d == 0 {
        Evaluation(LOSS_VALUE)
    } else if d >= l {
        Evaluation((((d - l) * (EVAL_UNIT as int)) / ((d + l) as int)) as i16)
    } else {
        Evaluation((-((((l - d) * (EVAL_UNIT as int)) / ((d + l) as int)))) as i16)
    }
}

/// Computes the static material evaluation of a position, from Dark's point
/// of view.
pub fn eval_position(board: CheckersBitBoard) -> (r: Evaluation)
    ensures
        r == spec_eval_position(board),
        r.valid(),
        !r.spec_is_force_win() || r.0 == WIN_VALUE,
        !r.spec_is_force_loss() || r.0 == LOSS_VALUE,
{
    let p = board.pieces_bits();
    let c = board.color_bits();
    let k = board.king_bits();

    let light_peasants = count_bits(p & !c & !k);
    let dark_peasants = count_bits(p & c & !k);
    let light_kings = count_bits(p & !c & k);
    let dark_kings = count_bits(p & c & k);

    proof {
        lemma_pop32_le(p & !c & !k);
        lemma_pop32_le(p & c & !k);
        lemma_pop32_le(p & !c & k);
        lemma_pop32_le(p & c & k);
    }

    let l: u32 = light_peasants + 2 * light_kings;
    let d: u32 = dark_peasants + 2 * dark_kings;

    if d + l == 0 {
        Evaluation(0)
    } else if l == 0 {
        Evaluation(WIN_VALUE)
    } else if d == 0 {
        Evaluation(LOSS_VALUE)
    } else if d >= l {
        let q: u32 = ((d - l) * 16384) / (d + l);
        proof {
            let dd = d as int;
            let ll = l as int;
            assert((dd - ll) * 16384 < (dd + ll) * 16384) by (nonlinear_arith)
                requires
                    ll >= 1,
                    dd >= ll,
            ;
            assert(((dd - ll) * 16384) / (dd + ll) < 16384) by (nonlinear_arith)
                requires
                    dd + ll >= 1,
                    (dd - ll) * 16384 < (dd + ll) * 16384,
                    dd >= ll,
            ;
        }
        Evaluation(q as i16)
    } else {
        let q: u32 = ((l - d) * 16384) / (l + d);
        proof {
            let dd = d as int;
            let ll = l as int;
            assert((ll - dd) * 16384 < (ll + dd) * 16384) by (nonlinear_arith)
                requires
                    dd >= 1,
                    ll >= dd,
            ;
            assert(((ll - dd) * 16384) / (ll + dd) < 16384) by (nonlinear_arith)
                requires
                    ll + dd >= 1,
                    (ll - dd) * 16384 < (ll + dd) * 16384,
                    ll >= dd,
            ;
            assert(l + d == d + l);
        }
        Evaluation(-(q as i16))
    }
}

} // verus!
