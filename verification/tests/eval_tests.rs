use ampere::{CheckersBitBoard, Evaluation, PieceColor};
use ampere::eval::eval_position;

/// The integer evaluation that a fractional advantage rounds to.
fn eval_new(eval: f32) -> Evaluation {
    if eval >= 1.0 {
        return Evaluation::win();
    } else if eval <= -1.0 {
        return Evaluation::loss();
    }
    Evaluation::from_units((eval * 16384.0) as i16)
}

#[test]
fn zero_eval() {
    let draw = eval_new(0.0);
    assert_eq!(draw, Evaluation::draw());
    assert_eq!(draw.units(), 0);
}

#[test]
fn comparisons() {
    assert!(Evaluation::null_max() > Evaluation::win());
    assert!(Evaluation::win() > eval_new(0.5));
    assert!(eval_new(0.5) > Evaluation::draw());
    assert!(Evaluation::draw() > eval_new(-0.5));
    assert!(eval_new(-0.5) > Evaluation::loss());
    assert!(Evaluation::loss() > Evaluation::null_min());
}

#[test]
fn negations() {
    assert_eq!(Evaluation::null_max().neg(), Evaluation::null_min());
    assert_eq!(Evaluation::null_min().neg(), Evaluation::null_max());
    assert_eq!(Evaluation::win().neg(), Evaluation::loss());
    assert_eq!(Evaluation::loss().neg(), Evaluation::win());
    assert_eq!(Evaluation::draw().neg(), Evaluation::draw());
    assert_eq!(eval_new(0.5).neg(), eval_new(-0.5));
}

#[test]
fn force_bands() {
    assert!(Evaluation::win().is_force_win());
    assert!(Evaluation::loss().is_force_loss());
    assert!(Evaluation::null_max().is_force_sequence());
    assert!(Evaluation::null_min().is_force_sequence());
    assert!(!Evaluation::draw().is_force_sequence());
    assert!(!eval_new(0.999).is_force_sequence());
}

#[test]
fn force_sequence_lengths() {
    assert_eq!(Evaluation::win().force_sequence_length(), Some(0));
    assert_eq!(Evaluation::loss().force_sequence_length(), Some(0));
    assert_eq!(Evaluation::from_units(32766 - 3).force_sequence_length(), Some(3));
    assert_eq!(Evaluation::from_units(-32766 + 7).force_sequence_length(), Some(7));
    assert_eq!(Evaluation::null_max().force_sequence_length(), None);
    assert_eq!(Evaluation::null_min().force_sequence_length(), None);
    assert_eq!(Evaluation::draw().force_sequence_length(), None);
}

#[test]
fn increment_moves_toward_neutral() {
    assert_eq!(Evaluation::win().increment().units(), 32765);
    assert_eq!(Evaluation::loss().increment().units(), -32765);
    assert_eq!(Evaluation::win().increment().force_sequence_length(), Some(1));
    assert_eq!(Evaluation::draw().increment(), Evaluation::draw());
    assert_eq!(Evaluation::from_units(100).increment().units(), 100);
}

#[test]
fn translate_shifts_heuristics_and_fixes_forces() {
    assert_eq!(Evaluation::draw().translate(2048).units(), 2048);
    assert_eq!(Evaluation::from_units(-100).translate(-2048).units(), -2148);
    assert_eq!(Evaluation::from_units(16000).translate(2048), Evaluation::win());
    assert_eq!(Evaluation::from_units(-16000).translate(-2048), Evaluation::loss());
    assert_eq!(Evaluation::win().translate(-2048), Evaluation::win());
    assert_eq!(Evaluation::loss().translate(2048), Evaluation::loss());
    assert_eq!(Evaluation::null_max().translate(-1), Evaluation::null_max());
}

#[test]
fn eval_position_start_is_even() {
    let board = CheckersBitBoard::starting_position();
    assert_eq!(eval_position(board), Evaluation::draw());
}

#[test]
fn eval_position_all_dark_is_win() {
    let board = CheckersBitBoard::new(0b111, 0b111, 0, PieceColor::Dark);
    assert_eq!(eval_position(board), Evaluation::win());
}

#[test]
fn eval_position_all_light_is_loss() {
    let board = CheckersBitBoard::new(0b111, 0, 0, PieceColor::Dark);
    assert_eq!(eval_position(board), Evaluation::loss());
}

#[test]
fn eval_position_two_dark_one_light() {
    // (2 - 1) / (2 + 1) of a game, truncated toward zero in raw units
    let board = CheckersBitBoard::new(0b111, 0b011, 0, PieceColor::Dark);
    assert_eq!(eval_position(board).units(), 16384 / 3);
}

#[test]
fn eval_position_king_counts_double() {
    // one dark king against one light man: (2 - 1) / 3
    let board = CheckersBitBoard::new(0b11, 0b01, 0b01, PieceColor::Dark);
    assert_eq!(eval_position(board).units(), 16384 / 3);
}

#[test]
fn eval_position_empty_board_is_draw() {
    let board = CheckersBitBoard::new(0, 0, 0, PieceColor::Dark);
    assert_eq!(eval_position(board), Evaluation::draw());
}
