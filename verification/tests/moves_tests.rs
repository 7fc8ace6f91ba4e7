use ampere::{Move, MoveDirection};

#[test]
fn end_position_forward_left_slide() {
    let direction = MoveDirection::ForwardLeft;
    let start = 8;
    let move_test = Move::new(start, direction, false);
    assert_eq!(move_test.end_position(), 15);
}

#[test]
fn end_position_forward_right_slide() {
    let direction = MoveDirection::ForwardRight;
    let start = 26;
    let move_test = Move::new(start, direction, false);
    assert_eq!(move_test.end_position(), 27);
}

#[test]
fn end_position_backward_right_slide() {
    let direction = MoveDirection::BackwardRight;
    let start = 2;
    let move_test = Move::new(start, direction, false);
    assert_eq!(move_test.end_position(), 27);
}

#[test]
fn end_position_backward_left_slide() {
    let direction = MoveDirection::BackwardLeft;
    let start = 16;
    let move_test = Move::new(start, direction, false);
    assert_eq!(move_test.end_position(), 15);
}

#[test]
fn end_position_forward_left_jump() {
    let direction = MoveDirection::ForwardLeft;
    let start = 8;
    let move_test = Move::new(start, direction, true);
    assert_eq!(move_test.end_position(), 22);
}

#[test]
fn end_position_forward_right_jump() {
    let direction = MoveDirection::ForwardRight;
    let start = 26;
    let move_test = Move::new(start, direction, true);
    assert_eq!(move_test.end_position(), 28);
}

#[test]
fn end_position_backward_right_jump() {
    let direction = MoveDirection::BackwardRight;
    let start = 2;
    let move_test = Move::new(start, direction, true);
    assert_eq!(move_test.end_position(), 20);
}

#[test]
fn end_position_backward_left_jump() {
    let direction = MoveDirection::BackwardLeft;
    let start = 16;
    let move_test = Move::new(start, direction, true);
    assert_eq!(move_test.end_position(), 14);
}

#[test]
fn move_parts_roundtrip() {
    for start in 0..32usize {
        for (direction, jump) in [
            (MoveDirection::ForwardLeft, false),
            (MoveDirection::ForwardRight, false),
            (MoveDirection::BackwardLeft, true),
            (MoveDirection::BackwardRight, true),
        ] {
            let m = Move::new(start, direction, jump);
            assert_eq!(m.start() as usize, start);
            assert_eq!(m.direction(), direction);
            assert_eq!(m.is_jump(), jump);
        }
    }
}

#[test]
fn jump_position_between_start_and_end() {
    let m = Move::new(0, MoveDirection::ForwardLeft, true);
    assert_eq!(m.jump_position(), 7);
    assert_eq!(m.end_position(), 14);

    let m = Move::new(11, MoveDirection::BackwardRight, true);
    assert_eq!(m.jump_position(), 4);
    assert_eq!(m.end_position(), 29);
}
