use ampere::{CheckersBitBoard, Move, MoveDirection, PieceColor, PossibleMoves};
use ampere::possible_moves::PossibleMovesIter;

fn setup_empty_iter() -> PossibleMovesIter {
    PossibleMovesIter::empty()
}

fn setup_add_move_to_iter_invalid() -> (PossibleMovesIter, PossibleMoves) {
    let moves = PossibleMoves {
        forward_left_movers: 0,
        forward_right_movers: 0,
        backward_left_movers: 0,
        backward_right_movers: 0,
    };
    let iter = setup_empty_iter();

    (iter, moves)
}

fn setup_add_move_to_iter_valid() -> (PossibleMovesIter, PossibleMoves) {
    let moves = PossibleMoves {
        forward_left_movers: u32::MAX,
        forward_right_movers: u32::MAX,
        backward_left_movers: u32::MAX,
        backward_right_movers: u32::MAX,
    };
    let iter = setup_empty_iter();

    (iter, moves)
}

#[test]
fn same() {
    let start = CheckersBitBoard::new(
        0b11100111100111100111110111111011,
        0b00001100001111001111001111000011,
        0,
        PieceColor::Dark,
    );
    let flip = CheckersBitBoard::new(
        0b11100111100111100111110111111011,
        0b11110011110000110000110000111100,
        0,
        PieceColor::Light,
    );

    assert_eq!(
        PossibleMoves::has_jumps(start),
        PossibleMoves::has_jumps(flip)
    )
}

#[test]
fn iter_next() {
    let test_move1 = Move::new(8, MoveDirection::ForwardLeft, false);
    let test_move2 = Move::new(26, MoveDirection::ForwardRight, true);
    let mut iter = PossibleMovesIter {
        moves: vec![test_move1, test_move2],
        index: 0,
    };

    let recieved_move = iter.next();
    assert!(recieved_move.is_some());
    assert_eq!(recieved_move.unwrap(), test_move1);

    let recieved_move = iter.next();
    assert!(recieved_move.is_some());
    assert_eq!(recieved_move.unwrap(), test_move2);

    let recieved_move = iter.next();
    assert!(recieved_move.is_none());
}

#[test]
fn add_slide_forward_left_to_iter_invalid() {
    const START: usize = 8;
    let (mut iter, moves) = setup_add_move_to_iter_invalid();
    iter.add_slide_forward_left(START, moves);

    assert_eq!(iter.index(), 0);
    assert_eq!(iter.length(), 0);
}

#[test]
fn add_slide_forward_left_to_iter_valid() {
    const START: usize = 8;
    let (mut iter, moves) = setup_add_move_to_iter_valid();
    iter.add_slide_forward_left(START, moves);

    assert_eq!(iter.index(), 0);
    assert_eq!(iter.length(), 1);

    let new_move = iter.next().unwrap();
    assert_eq!(new_move.start(), START as u32);
    assert_eq!(new_move.direction(), MoveDirection::ForwardLeft);
    assert!(!new_move.is_jump());
}

#[test]
fn add_slide_forward_right_to_iter_invalid() {
    const START: usize = 26;
    let (mut iter, moves) = setup_add_move_to_iter_invalid();
    iter.add_slide_forward_right(START, moves);

    assert_eq!(iter.index(), 0);
    assert_eq!(iter.length(), 0);
}

#[test]
fn add_slide_forward_right_to_iter_valid() {
    const START: usize = 26;
    let (mut iter, moves) = setup_add_move_to_iter_valid();
    iter.add_slide_forward_right(START, moves);

    assert_eq!(iter.index(), 0);
    assert_eq!(iter.length(), 1);

    let new_move = iter.next().unwrap();
    assert_eq!(new_move.start(), START as u32);
    assert_eq!(new_move.direction(), MoveDirection::ForwardRight);
    assert!(!new_move.is_jump());
}

#[test]
fn add_slide_backward_left_to_iter_invalid() {
    const START: usize = 17;
    let (mut iter, moves) = setup_add_move_to_iter_invalid();
    iter.add_slide_backward_left(START, moves);

    assert_eq!(iter.index(), 0);
    assert_eq!(iter.length(), 0);
}

#[test]
fn add_slide_backward_left_to_iter_valid() {
    const START: usize = 17;
    let (mut iter, moves) = setup_add_move_to_iter_valid();
    iter.add_slide_backward_left(START, moves);

    assert_eq!(iter.index(), 0);
    assert_eq!(iter.length(), 1);

    let new_move = iter.next().unwrap();
    assert_eq!(new_move.start(), START as u32);
    assert_eq!(new_move.direction(), MoveDirection::BackwardLeft);
    assert!(!new_move.is_jump());
}

#[test]
fn add_slide_backward_right_to_iter_invalid() {
    const START: usize = 3;
    let (mut iter, moves) = setup_add_move_to_iter_invalid();
    iter.add_slide_backward_right(START, moves);

    assert_eq!(iter.index(), 0);
    assert_eq!(iter.length(), 0);
}

#[test]
fn add_slide_backward_right_to_iter_valid() {
    const START: usize = 3;
    let (mut iter, moves) = setup_add_move_to_iter_valid();
    iter.add_slide_backward_right(START, moves);

    assert_eq!(iter.index(), 0);
    assert_eq!(iter.length(), 1);

    let new_move = iter.next().unwrap();
    assert_eq!(new_move.start(), START as u32);
    assert_eq!(new_move.direction(), MoveDirection::BackwardRight);
    assert!(!new_move.is_jump());
}

#[test]
fn add_jump_forward_left_to_iter_invalid() {
    const START: usize = 8;
    let (mut iter, moves) = setup_add_move_to_iter_invalid();
    iter.add_jump_forward_left(START, moves);

    assert_eq!(iter.index(), 0);
    assert_eq!(iter.length(), 0);
}

#[test]
fn add_jump_forward_left_to_iter_valid() {
    const START: usize = 8;
    let (mut iter, moves) = setup_add_move_to_iter_valid();
    iter.add_jump_forward_left(START, moves);

    assert_eq!(iter.index(), 0);
    assert_eq!(iter.length(), 1);

    let new_move = iter.next().unwrap();
    assert_eq!(new_move.start(), START as u32);
    assert_eq!(new_move.direction(), MoveDirection::ForwardLeft);
    assert!(new_move.is_jump());
}

#[test]
fn add_jump_forward_right_to_iter_invalid() {
    const START: usize = 26;
    let (mut iter, moves) = setup_add_move_to_iter_invalid();
    iter.add_jump_forward_right(START, moves);

    assert_eq!(iter.index(), 0);
    assert_eq!(iter.length(), 0);
}

#[test]
fn add_jump_forward_right_to_iter_valid() {
    const START: usize = 26;
    let (mut iter, moves) = setup_add_move_to_iter_valid();
    iter.add_jump_forward_right(START, moves);

    assert_eq!(iter.index(), 0);
    assert_eq!(iter.length(), 1);

    let new_move = iter.next().unwrap();
    assert_eq!(new_move.start(), START as u32);
    assert_eq!(new_move.direction(), MoveDirection::ForwardRight);
    assert!(new_move.is_jump());
}

#[test]
fn add_jump_backward_left_to_iter_invalid() {
    const START: usize = 17;
    let (mut iter, moves) = setup_add_move_to_iter_invalid();
    iter.add_jump_backward_left(START, moves);

    assert_eq!(iter.index(), 0);
    assert_eq!(iter.length(), 0);
}

#[test]
fn add_jump_backward_left_to_iter_valid() {
    const START: usize = 17;
    let (mut iter, moves) = setup_add_move_to_iter_valid();
    iter.add_jump_backward_left(START, moves);

    assert_eq!(iter.index(), 0);
    assert_eq!(iter.length(), 1);

    let new_move = iter.next().unwrap();
    assert_eq!(new_move.start(), START as u32);
    assert_eq!(new_move.direction(), MoveDirection::BackwardLeft);
    assert!(new_move.is_jump());
}

#[test]
fn add_jump_backward_right_to_iter_invalid() {
    const START: usize = 3;
    let (mut iter, moves) = setup_add_move_to_iter_invalid();
    iter.add_jump_backward_right(START, moves);

    assert_eq!(iter.index(), 0);
    assert_eq!(iter.length(), 0);
}

#[test]
fn add_jump_backward_right_to_iter_valid() {
    const START: usize = 3;
    let (mut iter, moves) = setup_add_move_to_iter_valid();
    iter.add_jump_backward_right(START, moves);

    assert_eq!(iter.index(), 0);
    assert_eq!(iter.length(), 1);

    let new_move = iter.next().unwrap();
    assert_eq!(new_move.start(), START as u32);
    assert_eq!(new_move.direction(), MoveDirection::BackwardRight);
    assert!(new_move.is_jump());
}

#[test]
fn cant_jump_in_position_2_without_26() {
    // A light piece in the second bit while there is no piece in the 26th
    // bit must not turn every light move into a jump: the edge masks keep
    // wrapped-around captures out.
    let board = CheckersBitBoard::new(16908890, 401395713, 50332352, PieceColor::Light);
    let possible_moves = PossibleMoves::moves(board);
    assert!(!possible_moves.can_jump())
}

#[test]
fn not_has_jump_at_14_when_has_jump_at_20() {
    // After one piece jumps, completely different pieces must not be allowed
    // to continue the capture sequence.
    let board = CheckersBitBoard::new(
        0b11100111001111001111110111111011,
        0b00001100001111001111001111000011,
        0,
        PieceColor::Dark,
    );
    let possible_moves = PossibleMoves::moves(board);
    assert!(!possible_moves.can_jump())
}

#[test]
fn possible_moves_test_send() {
    fn assert_send<T: Send>() {}
    assert_send::<PossibleMoves>();
    assert_send::<PossibleMovesIter>();
}

#[test]
fn possible_moves_test_sync() {
    fn assert_sync<T: Sync>() {}
    assert_sync::<PossibleMoves>();
    assert_sync::<PossibleMovesIter>();
}
