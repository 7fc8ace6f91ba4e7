use std::sync::atomic::{AtomicBool, AtomicUsize};

use ampere::{
    best_move, ActualLimit, CheckersBitBoard, Clock, Evaluation, EvaluationSettings,
    EvaluationTask, Frontend, LazySort, LazySortIter, Move, MoveDirection, PieceColor,
    PossibleMoves, SearchLimit, StackVec, TranspositionTable,
};
use ampere::perft::positions;
use ampere::search::{negamax, search};
use ampere::transposition_table::TranspositionTableEntry;

struct QuietFrontend;

impl Frontend for QuietFrontend {
    fn debug(&self, _msg: &str) {}

    fn report_best_move(&self, _best_move: Move) {}
}

fn task_for(board: CheckersBitBoard, limits: ActualLimit, ponder: bool) -> EvaluationTask {
    EvaluationTask {
        position: board,
        allowed_moves: None,
        limits,
        ponder,
        cancel_flag: AtomicBool::new(false),
        end_ponder_flag: AtomicBool::new(false),
        nodes_explored: AtomicUsize::new(0),
    }
}

// Perft at the starting position: seven opening moves, forty-nine replies.
#[test]
fn perft_starting_position() {
    let board = CheckersBitBoard::starting_position();
    assert_eq!(positions(board, 0), 1);
    assert_eq!(positions(board, 1), 7);
    assert_eq!(positions(board, 2), 49);
}

// A forward-left slide onto the promotion row makes a king.
#[test]
fn forward_left_slide_promotes() {
    let board = CheckersBitBoard::new(0b10000, 0b10000, 0, PieceColor::Dark);
    let m = Move::new(4, MoveDirection::ForwardLeft, false);
    assert!(PossibleMoves::moves(board).contains(m));
    let after = m.apply_to(board);
    assert!(after.piece_at(11));
    assert!(after.king_at(11).unwrap());
    assert!(!after.piece_at(4));
}

// A forward-left jump removes the leapt piece and passes the turn.
#[test]
fn forward_left_jump_captures() {
    let board = CheckersBitBoard::new(0b10000001, 1, 0, PieceColor::Dark);
    let m = Move::new(0, MoveDirection::ForwardLeft, true);
    assert!(PossibleMoves::moves(board).contains(m));
    let after = m.apply_to(board);
    assert!(!after.piece_at(0));
    assert!(!after.piece_at(7));
    assert!(after.piece_at(14));
    assert_eq!(after.color_at(14), Some(PieceColor::Dark));
    assert_eq!(after.king_at(14), Some(false));
    assert_eq!(after.turn(), PieceColor::Light);
}

// When another capture waits past the landing square, the turn stays with
// the mover.
#[test]
fn multi_jump_keeps_the_turn() {
    // Dark man on 0, Light men on 7 and 21: after 0x14 a jump to 28 remains
    let pieces = (1u32 << 0) | (1 << 7) | (1 << 21);
    let board = CheckersBitBoard::new(pieces, 1, 0, PieceColor::Dark);
    let m = Move::new(0, MoveDirection::ForwardLeft, true);
    assert!(PossibleMoves::moves(board).contains(m));
    let after = m.apply_to(board);
    assert!(after.piece_at(14));
    assert!(!after.piece_at(7));
    assert_eq!(after.turn(), PieceColor::Dark);
    assert!(PossibleMoves::has_jumps_at(after, 14));
}

// A slide is illegal while a jump is available.
#[test]
fn forced_capture_blocks_slides() {
    let board = CheckersBitBoard::new(0b10000001, 1, 0, PieceColor::Dark);
    let slide = Move::new(0, MoveDirection::ForwardRight, false);
    assert!(!PossibleMoves::moves(board).contains(slide));
    assert!(PossibleMoves::has_jumps(board));
}

// A lone blocked piece has no moves at all: a terminal loss.
#[test]
fn blocked_position_has_no_moves() {
    // Dark man on 5 (the corner at rank 7): it can only move forward off
    // the board, so nothing is legal
    let board = CheckersBitBoard::new(1 << 5, 1 << 5, 0, PieceColor::Dark);
    let moves = PossibleMoves::moves(board);
    assert!(moves.is_empty());
}

// The transposition table returns a fresh entry at any smaller depth.
#[test]
fn tt_get_after_insert() {
    let mut tt = TranspositionTable::new(1024);
    let board = CheckersBitBoard::starting_position();
    let e = Evaluation::from_units(42);
    tt.insert(board, e, 7);
    assert_eq!(tt.get(board, 7), Some(e));
    assert_eq!(tt.get(board, 3), Some(e));
    assert_eq!(tt.get(board, 8), None);
    assert_eq!(tt.get_any_depth(board), Some(e));
}

// The depth layer keeps the deeper entry; the replace layer the newest.
#[test]
fn tt_depth_preferred_replacement() {
    let mut tt = TranspositionTable::new(1024);
    let board = CheckersBitBoard::starting_position();
    let e1 = Evaluation::from_units(100);
    let e2 = Evaluation::from_units(-100);
    tt.insert(board, e1, 5);
    tt.insert(board, e2, 3);
    assert_eq!(tt.get(board, 5), Some(e1));
    assert_eq!(tt.get(board, 3), Some(e2));
}

// A miss: different board in the bucket, or nothing stored at all.
#[test]
fn tt_miss() {
    let mut tt = TranspositionTable::new(1024);
    let board = CheckersBitBoard::starting_position();
    assert_eq!(tt.get(board, 1), None);
    assert_eq!(tt.get_any_depth(board), None);
    let other = CheckersBitBoard::new(0b11, 0b01, 0, PieceColor::Dark);
    tt.insert(other, Evaluation::draw(), 2);
    assert_eq!(tt.get(board, 1), None);
}

#[test]
fn tt_entry_new() {
    let board = CheckersBitBoard::starting_position();
    let entry = TranspositionTableEntry::new(board, Evaluation::draw(), 3);
    assert_eq!(entry.depth, 3);
    assert_eq!(entry.eval, Evaluation::draw());
}

// The lazy sorter hands out moves by ascending key.
#[test]
fn lazysort_orders_by_key() {
    let m1 = Move::new(1, MoveDirection::ForwardLeft, false);
    let m2 = Move::new(2, MoveDirection::ForwardLeft, false);
    let m3 = Move::new(3, MoveDirection::ForwardLeft, false);
    let mut sorter = LazySort::new(vec![(m1, 5), (m2, 3), (m3, 4)]);
    assert!(!sorter.is_empty());
    assert_eq!(sorter.get(0), Some(m2));
    assert_eq!(sorter.get(1), Some(m3));
    assert_eq!(sorter.get(2), Some(m1));
    assert_eq!(sorter.get(3), None);
}

#[test]
fn lazysort_iter_yields_in_order() {
    let m1 = Move::new(1, MoveDirection::ForwardLeft, false);
    let m2 = Move::new(2, MoveDirection::ForwardLeft, false);
    let mut iter = LazySortIter::new(LazySort::new(vec![(m1, 9), (m2, -4)]));
    assert_eq!(iter.next(), Some(m2));
    assert_eq!(iter.next(), Some(m1));
    assert_eq!(iter.next(), None);
}

#[test]
fn lazysort_empty() {
    let mut sorter = LazySort::new(Vec::new());
    assert!(sorter.is_empty());
    assert_eq!(sorter.len(), 0);
    assert_eq!(sorter.get(0), None);
}

#[test]
fn stackvec_push_pop() {
    let mut v: StackVec<u32, 3> = StackVec::new();
    assert!(v.is_empty());
    assert_eq!(v.capcity(), 3);
    v.push(10);
    v.push(20);
    assert_eq!(v.len(), 2);
    assert_eq!(*v.get(0), 10);
    assert_eq!(v.try_push(30), Some(()));
    assert_eq!(v.try_push(40), None);
    assert_eq!(v.pop(), Some(30));
    assert_eq!(v.pop(), Some(20));
    v.clear();
    assert!(v.is_empty());
    assert_eq!(v.pop(), None);
}

#[test]
fn recommended_time_unlimited() {
    assert_eq!(Clock::Unlimited.recommended_time(PieceColor::Dark), 300000);
}

#[test]
fn recommended_time_per_move() {
    assert_eq!(Clock::TimePerMove(1000).recommended_time(PieceColor::Light), 1000);
}

#[test]
fn recommended_time_standard() {
    let clock = Clock::Standard {
        white_time_remaining: 60000,
        black_time_remaining: 10000,
        white_increment: 200,
        black_increment: 100,
        moves_until_next_time_control: Some((25, 0)),
    };
    // (10000 / 25 + 100) * 4 / 5
    assert_eq!(clock.recommended_time(PieceColor::Dark), 400);
    // (60000 / 25 + 200) * 4 / 5
    assert_eq!(clock.recommended_time(PieceColor::Light), 2080);
}

#[test]
fn recommended_time_standard_without_moves_to_go() {
    let clock = Clock::Standard {
        white_time_remaining: 50000,
        black_time_remaining: 50000,
        white_increment: 0,
        black_increment: 0,
        moves_until_next_time_control: None,
    };
    // (50000 / 50 + 0) * 4 / 5
    assert_eq!(clock.recommended_time(PieceColor::Dark), 800);
}

#[test]
fn get_limits_auto_and_infinite() {
    let mut settings = EvaluationSettings::default();
    let auto = settings.get_limits(PieceColor::Dark);
    assert_eq!(auto.depth, Some(30));
    assert_eq!(auto.nodes, None);
    assert_eq!(auto.time, Some(300000));

    settings.search_until = SearchLimit::Infinite;
    let inf = settings.get_limits(PieceColor::Dark);
    assert_eq!(inf, ActualLimit { nodes: None, depth: None, time: None });
}

#[test]
fn get_limits_zero_is_absent() {
    let settings = EvaluationSettings {
        restrict_moves: None,
        ponder: false,
        clock: Clock::Unlimited,
        search_until: SearchLimit::Limited(ActualLimit {
            nodes: Some(0),
            depth: Some(9),
            time: Some(0),
        }),
    };
    let limits = settings.get_limits(PieceColor::Light);
    assert_eq!(limits, ActualLimit { nodes: None, depth: Some(9), time: None });
}

// Negamax at depth zero reports the static evaluation from the mover's
// point of view.
#[test]
fn negamax_depth_zero_is_static_eval() {
    let board = CheckersBitBoard::new(0b111, 0b011, 0, PieceColor::Dark);
    let task = task_for(board, ActualLimit { nodes: None, depth: None, time: None }, false);
    let mut table = TranspositionTable::new(256);
    let (e, m) = negamax(
        0,
        Evaluation::null_min(),
        Evaluation::null_max(),
        board,
        None,
        &task.cancel_flag,
        &task,
        &mut table,
    );
    assert_eq!(e.units(), 16384 / 3);
    assert_eq!(m, None);

    let flipped = board.flip_turn();
    let (e2, _) = negamax(
        0,
        Evaluation::null_min(),
        Evaluation::null_max(),
        flipped,
        None,
        &task.cancel_flag,
        &task,
        &mut table,
    );
    assert_eq!(e2.units(), -(16384 / 3));
}

// A position with no legal ply is a loss for the side to move.
#[test]
fn negamax_terminal_position_is_loss() {
    let board = CheckersBitBoard::new(1 << 5, 1 << 5, 0, PieceColor::Dark);
    let task = task_for(board, ActualLimit { nodes: None, depth: None, time: None }, false);
    let mut table = TranspositionTable::new(256);
    let (e, m) = negamax(
        3,
        Evaluation::null_min(),
        Evaluation::null_max(),
        board,
        None,
        &task.cancel_flag,
        &task,
        &mut table,
    );
    assert_eq!(e, Evaluation::loss());
    assert_eq!(m, None);
}

// Negamax symmetry: a position that maps to itself under the half-turn
// mirror with the colors swapped evaluates to opposite values for the two
// sides.
#[test]
fn negamax_symmetry_on_mirrored_position() {
    // Dark man on square 0 and Light man on square 11 mirror each other
    let board = CheckersBitBoard::new((1 << 0) | (1 << 11), 1, 0, PieceColor::Dark);
    let task = task_for(board, ActualLimit { nodes: None, depth: None, time: None }, false);
    for depth in 0..5u8 {
        let mut table_a = TranspositionTable::new(1024);
        let mut table_b = TranspositionTable::new(1024);
        let (a, _) = negamax(
            depth,
            Evaluation::null_min(),
            Evaluation::null_max(),
            board,
            None,
            &task.cancel_flag,
            &task,
            &mut table_a,
        );
        let (b, _) = negamax(
            depth,
            Evaluation::null_min(),
            Evaluation::null_max(),
            board.flip_turn(),
            None,
            &task.cancel_flag,
            &task,
            &mut table_b,
        );
        assert_eq!(a.units(), b.neg().units());
    }
}

// Aspiration fail-high recovery: a forced win lies far above the narrow
// window that the first iteration sets, and the deepening search must still
// find and report it.
#[test]
fn aspiration_fail_high_finds_forced_win() {
    let board = CheckersBitBoard::new(0b10000001, 1, 0, PieceColor::Dark);
    let task = task_for(
        board,
        ActualLimit { nodes: None, depth: Some(3), time: None },
        false,
    );
    let mut table = TranspositionTable::new(4096);
    let (e, m) = search(&task, &mut table, &QuietFrontend);
    assert!(e.is_force_win());
    assert_eq!(m, Some(Move::new(0, MoveDirection::ForwardLeft, true)));
}

// The root move restriction really restricts the root.
#[test]
fn search_respects_restricted_moves() {
    let board = CheckersBitBoard::starting_position();
    let only = Move::new(8, MoveDirection::ForwardLeft, false);
    assert!(PossibleMoves::moves(board).contains(only));
    let task = EvaluationTask {
        position: board,
        allowed_moves: Some(vec![only]),
        limits: ActualLimit { nodes: None, depth: Some(2), time: None },
        ponder: false,
        cancel_flag: AtomicBool::new(false),
        end_ponder_flag: AtomicBool::new(false),
        nodes_explored: AtomicUsize::new(0),
    };
    let mut table = TranspositionTable::new(4096);
    let (_, m) = search(&task, &mut table, &QuietFrontend);
    assert_eq!(m, Some(only));
}

// A cancelled task keeps the last completed result: here nothing at all.
#[test]
fn search_cancelled_before_start() {
    let board = CheckersBitBoard::starting_position();
    let task = task_for(board, ActualLimit { nodes: None, depth: Some(5), time: None }, false);
    task.cancel_flag.store(true, std::sync::atomic::Ordering::Release);
    let mut table = TranspositionTable::new(4096);
    let (e, m) = search(&task, &mut table, &QuietFrontend);
    assert_eq!(e, Evaluation::draw());
    assert_eq!(m, None);
}

// The simple fixed-depth facade picks the only available capture.
#[test]
fn best_move_picks_the_capture() {
    let board = CheckersBitBoard::new(0b10000001, 1, 0, PieceColor::Dark);
    let m = best_move(2, board);
    assert_eq!(m, Move::new(0, MoveDirection::ForwardLeft, true));
}

// The searched node counter moves.
#[test]
fn search_counts_nodes() {
    let board = CheckersBitBoard::starting_position();
    let task = task_for(board, ActualLimit { nodes: None, depth: Some(2), time: None }, false);
    let mut table = TranspositionTable::new(4096);
    let _ = search(&task, &mut table, &QuietFrontend);
    assert!(task.nodes_explored.load(std::sync::atomic::Ordering::Acquire) > 0);
}

// has_jumps_at singles out the square with the capture.
#[test]
fn has_jumps_at_only_the_jumping_square() {
    let board = CheckersBitBoard::new(0b10000001, 1, 0, PieceColor::Dark);
    assert!(PossibleMoves::has_jumps_at(board, 0));
    assert!(!PossibleMoves::has_jumps_at(board, 7));
    assert!(!PossibleMoves::has_jumps_at(board, 14));
}
