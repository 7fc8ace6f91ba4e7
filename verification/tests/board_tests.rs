use ampere::{CheckersBitBoard, PieceColor};

#[test]
fn test_piece_at_empty_board() {
    let board = CheckersBitBoard::new(0, 0, 0, PieceColor::Dark);

    // There should be no piece in any space
    for i in 0..32 {
        assert!(!board.piece_at(i))
    }
}

#[test]
fn test_piece_at_space_zero() {
    let board = CheckersBitBoard::new(1, 0, 0, PieceColor::Dark);
    assert!(board.piece_at(0)); // There should be a piece in space 0

    // There should be no piece in any other square
    for i in 1..32 {
        assert!(!board.piece_at(i))
    }
}

#[test]
fn test_color_at_unchecked_all_light() {
    let board = CheckersBitBoard::new(0, 0, 0, PieceColor::Dark);

    // All squares should be light
    for i in 0..32 {
        assert_eq!(board.color_at_unchecked(i), PieceColor::Light)
    }
}

#[test]
fn test_color_at_unchecked_all_dark() {
    let board = CheckersBitBoard::new(0, u32::MAX, 0, PieceColor::Dark);

    // All squares should be dark
    for i in 0..32 {
        assert_eq!(board.color_at_unchecked(i), PieceColor::Dark)
    }
}

#[test]
fn test_king_at_unchecked_all_kings() {
    let board = CheckersBitBoard::new(0, 0, u32::MAX, PieceColor::Dark);

    // All squares should be kings
    for i in 0..32 {
        assert!(board.king_at_unchecked(i))
    }
}

#[test]
fn test_king_at_unchecked_one_king() {
    let board = CheckersBitBoard::new(0, 0, 1, PieceColor::Dark);

    assert!(board.king_at_unchecked(0));

    // All other squares should be peasants
    for i in 1..32 {
        assert!(!board.king_at_unchecked(i))
    }
}

#[test]
fn test_default_bitboard() {
    let board = CheckersBitBoard::default();
    let exemptions = vec![2, 28, 22, 16, 27, 21, 15, 9];
    let black = vec![18, 12, 6, 0, 19, 13, 7, 1, 26, 20, 14, 8];

    for i in 0..32 {
        if !exemptions.contains(&i) {
            assert!(board.piece_at(i));
            assert!(!board.king_at_unchecked(i));

            if black.contains(&i) {
                assert_eq!(board.color_at_unchecked(i), PieceColor::Dark)
            } else {
                assert_eq!(board.color_at_unchecked(i), PieceColor::Light)
            }
        } else {
            assert!(!board.piece_at(i))
        }
    }
}

#[test]
fn test_bitboard_eq_default() {
    let board1 = CheckersBitBoard::new(
        0b11100111100111100111110111111011,
        0b11110011110000110000110000111100,
        0,
        PieceColor::Dark,
    );
    let board2 = CheckersBitBoard::new(
        0b11100111100111100111110111111011,
        0b11110011110000110000110000111100,
        0,
        PieceColor::Dark,
    );
    assert_eq!(board1, board2);
}

#[test]
fn test_bitboard_neq_color() {
    let board1 = CheckersBitBoard::new(
        0b11100111100111100111110111111011,
        0b11110011110000110000110000111100,
        0,
        PieceColor::Dark,
    );
    let board2 = CheckersBitBoard::new(
        0b11100111100111100111110111111011,
        465413646,
        0,
        PieceColor::Dark,
    );
    assert_ne!(board1, board2);
}

#[test]
fn test_bitboard_neq_kings() {
    let board1 = CheckersBitBoard::new(
        0b11100111100111100111110111111011,
        0b11110011110000110000110000111100,
        0,
        PieceColor::Dark,
    );
    let board2 = CheckersBitBoard::new(
        0b11100111100111100111110111111011,
        0b11110011110000110000110000111100,
        465413646,
        PieceColor::Dark,
    );
    assert_ne!(board1, board2);
}

#[test]
fn test_color_at_empty() {
    let board = CheckersBitBoard::new(0, 0, 0, PieceColor::Dark);

    for i in 0..32 {
        assert_eq!(board.color_at(i), None)
    }
}

#[test]
fn test_color_at_specified_empty_colors() {
    let board = CheckersBitBoard::new(0, 0b01, 0, PieceColor::Dark);

    for i in 0..32 {
        assert_eq!(board.color_at(i), None)
    }
}

#[test]
fn test_color_at_some_colors() {
    let board = CheckersBitBoard::new(3, 0b01, 0, PieceColor::Dark);

    assert_eq!(board.color_at(0), Some(PieceColor::Dark));
    assert_eq!(board.color_at(1), Some(PieceColor::Light));

    for i in 2..32 {
        assert_eq!(board.color_at(i), None)
    }
}

#[test]
fn test_king_at_empty() {
    let board = CheckersBitBoard::new(0, 0, 0, PieceColor::Dark);

    for i in 0..32 {
        assert_eq!(board.king_at(i), None)
    }
}

#[test]
fn test_king_at_specified_empty_colors() {
    let board = CheckersBitBoard::new(0, 0, 0b01, PieceColor::Dark);

    for i in 0..32 {
        assert_eq!(board.king_at(i), None)
    }
}

#[test]
fn test_king_at_some_colors() {
    let board = CheckersBitBoard::new(3, 0, 0b01, PieceColor::Dark);

    assert_eq!(board.king_at(0), Some(true));
    assert_eq!(board.king_at(1), Some(false));

    for i in 2..32 {
        assert_eq!(board.king_at(i), None)
    }
}

#[test]
fn test_move_piece_to_default_board() {
    let board = CheckersBitBoard::default();
    let board = board.move_piece_to_unchecked(0, 5);
    assert!(!board.piece_at(0));
    assert!(board.piece_at(5));
    assert_eq!(board.color_at(5).unwrap(), PieceColor::Dark);
    assert!(board.king_at(5).unwrap());
    assert_eq!(board.turn(), PieceColor::Light);
}

#[test]
fn test_move_piece_forward_standard() {
    let board = CheckersBitBoard::default();
    let board = board.move_piece_forward_unchecked(14, 2); // go to 16
    assert!(!board.piece_at(14));
    assert!(board.piece_at(16));
    assert_eq!(board.color_at(16).unwrap(), PieceColor::Dark);
    assert!(!board.king_at(16).unwrap());
    assert_eq!(board.turn(), PieceColor::Light);
}

#[test]
fn test_move_piece_forward_wrap() {
    let board = CheckersBitBoard::default();
    let board = board.move_piece_forward_unchecked(26, 8); // go to 2
    assert!(!board.piece_at(26));
    assert!(board.piece_at(2));
    assert_eq!(board.color_at(2).unwrap(), PieceColor::Dark);
    assert!(!board.king_at(2).unwrap());
    assert_eq!(board.turn(), PieceColor::Light);
}

#[test]
fn test_move_piece_forward_left_to_king() {
    let board = CheckersBitBoard::new(0b10000, 0b10000, 0, PieceColor::Dark);
    let board = board.move_piece_forward_left_unchecked(4);
    assert!(board.piece_at(11));
    assert!(board.king_at(11).unwrap());
}

#[test]
fn test_move_piece_backward_left_to_king() {
    let board = CheckersBitBoard::new(0b10, 0, 0, PieceColor::Dark);
    let board = board.move_piece_backward_left_unchecked(1);
    assert!(board.piece_at(0));
    assert!(board.king_at(0).unwrap());
}

#[test]
fn test_move_piece_backward_standard() {
    let board = CheckersBitBoard::default().flip_turn();
    let board = board.move_piece_backward_unchecked(29, 14); // go to 15
    assert!(!board.piece_at(29));
    assert!(board.piece_at(15));
    assert_eq!(board.color_at(15).unwrap(), PieceColor::Light);
    assert!(!board.king_at(15).unwrap());
    assert_eq!(board.turn(), PieceColor::Dark);
}

#[test]
fn test_move_piece_backward_wrap() {
    let board = CheckersBitBoard::default();
    let board = board.move_piece_backward_unchecked(0, 4); // go to 28
    assert!(!board.piece_at(0));
    assert!(board.piece_at(28));
    assert_eq!(board.color_at(28).unwrap(), PieceColor::Dark);
    assert!(!board.king_at(28).unwrap());
    assert_eq!(board.turn(), PieceColor::Light);
}

#[test]
// the specific tests have special values, and are different from the property tests
fn test_jump_forward_left_specific() {
    let board = CheckersBitBoard::new(0b10000001, 1, 0, PieceColor::Dark);

    let board2 = board.jump_piece_forward_left_unchecked(0);
    assert!(!board2.piece_at(0));
    assert!(!board2.piece_at(7));
    assert!(board2.piece_at(14));
    assert_eq!(board2.color_at(14).unwrap(), board.color_at(0).unwrap());
    assert_eq!(board2.king_at(14).unwrap(), board.king_at(0).unwrap());
    assert_eq!(board2.turn(), PieceColor::Light);
}

#[test]
fn test_jump_forward_right_specific() {
    let board = CheckersBitBoard::new(
        0b11000000000000000000,
        0b10000000000000000000,
        0,
        PieceColor::Dark,
    );

    let board2 = board.jump_piece_forward_right_unchecked(18);
    assert!(!board2.piece_at(18));
    assert!(!board2.piece_at(19));
    assert!(board2.piece_at(20));
    assert_eq!(board2.color_at(20).unwrap(), board.color_at(18).unwrap());
    assert_eq!(board2.king_at(20).unwrap(), board.king_at(18).unwrap());
    assert_eq!(board2.turn(), PieceColor::Light);
}

#[test]
fn test_jump_backward_left_specific() {
    let board = CheckersBitBoard::new(
        0b110000000000000000000000000,
        0b100000000000000000000000000,
        0,
        PieceColor::Dark,
    );

    let board2 = board.jump_piece_backward_left_unchecked(25);
    assert!(!board2.piece_at(25));
    assert!(!board2.piece_at(24));
    assert!(board2.piece_at(23));
    assert_eq!(board2.color_at(23).unwrap(), board.color_at(25).unwrap());
    assert_eq!(board2.king_at(23).unwrap(), board.king_at(25).unwrap());
    assert_eq!(board2.turn(), PieceColor::Light);
}

#[test]
fn test_jump_backward_right_specific() {
    let board = CheckersBitBoard::new(0b100000010000, 0b10000, 0, PieceColor::Dark);

    let board2 = board.jump_piece_backward_right_unchecked(11);
    assert!(!board2.piece_at(11));
    assert!(!board2.piece_at(4));
    assert!(board2.piece_at(29));
    assert_eq!(board2.color_at(29).unwrap(), board.color_at(11).unwrap());
    assert_eq!(board2.king_at(29).unwrap(), board.king_at(11).unwrap());
    assert_eq!(board2.turn(), PieceColor::Light);
}

#[test]
fn tests_test_send() {
    fn assert_send<T: Send>() {}
    assert_send::<CheckersBitBoard>();
}

#[test]
fn tests_test_sync() {
    fn assert_sync<T: Sync>() {}
    assert_sync::<CheckersBitBoard>();
}
