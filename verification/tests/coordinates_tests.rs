use ampere::{CheckersBitBoard, PieceColor, SquareCoordinate};

#[test]
fn from_value_matches_the_table() {
    let table = [
        (0, 6),
        (1, 7),
        (4, 0),
        (5, 1),
        (6, 2),
        (7, 3),
        (0, 4),
        (1, 5),
        (2, 6),
        (3, 7),
        (6, 0),
        (7, 1),
        (0, 2),
        (1, 3),
        (2, 4),
        (3, 5),
        (4, 6),
        (5, 7),
        (0, 0),
        (1, 1),
        (2, 2),
        (3, 3),
        (4, 4),
        (5, 5),
        (6, 6),
        (7, 7),
        (2, 0),
        (3, 1),
        (4, 2),
        (5, 3),
        (6, 4),
        (7, 5),
    ];
    for (value, (rank, file)) in table.iter().enumerate() {
        let coord = SquareCoordinate::from_value(value);
        assert_eq!(coord.rank(), *rank);
        assert_eq!(coord.file(), *file);
    }
}

#[test]
fn to_value_inverts_from_value() {
    for value in 0..32 {
        let coord = SquareCoordinate::from_value(value);
        assert_eq!(coord.to_value(), Some(value));
    }
}

#[test]
fn to_value_rejects_non_playing_squares() {
    // rank and file of different parity never name a playing square
    assert_eq!(SquareCoordinate::new(0, 1).to_value(), None);
    assert_eq!(SquareCoordinate::new(3, 4).to_value(), None);
}

#[test]
fn get_at_row_col_reads_the_board() {
    let board = CheckersBitBoard::starting_position();
    // square 18 is rank 0, file 0 and holds a dark man at the start
    let piece = board.get_at_row_col(0, 0).unwrap();
    assert_eq!(piece.color(), PieceColor::Dark);
    assert!(!piece.is_king());
    // square 22 is rank 4, file 4 and starts empty
    assert!(board.get_at_row_col(4, 4).is_none());
    // off the board
    assert!(board.get_at_row_col(9, 0).is_none());
    // not a playing square
    assert!(board.get_at_row_col(0, 1).is_none());
}
