//! The searcher: negamax with alpha-beta pruning under a transposition
//! table, driven by iterative deepening with aspiration windows.

use std::sync::atomic::{AtomicBool, AtomicUsize, Ordering};
use std::time::Duration;
use std::time::Instant;

use vstd::prelude::*;

use crate::board::CheckersBitBoard;
use crate::color::PieceColor;
use crate::eval::{eval_position, Evaluation, NULL_MAX_VALUE, NULL_MIN_VALUE};
use crate::lazysort::{drawn_from, LazySort, MOVE_BUFFER_CAPACITY};
use crate::moves::Move;
use crate::possible_moves::{spec_iter_moves, spec_legal, spec_moves, PossibleMoves};
use crate::settings::ActualLimit;
use crate::transposition_table::TranspositionTable;

verus! {

/// A window shift of one eighth of a game, for aspiration windows.
pub const ASPIRATION_MARGIN: i16 = 2048;

/// Every move of the sequence is a legal ply of `b`.
pub open spec fn all_legal(b: CheckersBitBoard, ms: Seq<Move>) -> bool {
    forall|i: int| 0 <= i < ms.len() ==> spec_legal(b, #[trigger] ms[i])
}

/// One evaluation in flight: the position and limits it was asked with, and
/// the flags and counters the worker and its owner share.
pub struct EvaluationTask {
    /// The position under evaluation.
    pub position: CheckersBitBoard,
    /// When present, the root searches only these moves.
    pub allowed_moves: Option<Vec<Move>>,
    /// The hard limits of this evaluation.
    pub limits: ActualLimit,
    /// Whether to keep searching after the best move is reported.
    pub ponder: bool,
    /// Set by the owner to stop the search.
    pub cancel_flag: AtomicBool,
    /// Set by the owner to stop pondering.
    pub end_ponder_flag: AtomicBool,
    /// How many nodes the search has entered.
    pub nodes_explored: AtomicUsize,
}

/// What the searcher reports to its surroundings.
pub trait Frontend {
    /// Diagnostic text; may do nothing.
    fn debug(&self, msg: &str);

    /// The final best move of an evaluation.
    fn report_best_move(&self, best_move: Move);
}

/// `std::time::Instant`, declared so that a deadline can hold one; the
/// library promises nothing about it.
#[verifier::external_type_specification]
#[verifier::external_body]
pub struct ExInstant(Instant);

/// A point on the wall clock that a search must not run past.
pub struct SearchDeadline {
    inner: Option<Instant>,
}

impl SearchDeadline {
    /// Relies on `std::time::Instant::now` and `checked_add`: half the given
    /// budget from now, or no deadline at all. Nothing is assumed about the
    /// clock.
    #[verifier::external_body]
    pub fn start(time_limit_millis: Option<u64>) -> SearchDeadline {
        SearchDeadline {
            inner: match time_limit_millis {
                Some(ms) => Instant::now().checked_add(Duration::from_millis(ms / 2)),
                None => None,
            },
        }
    }

    /// Relies on `std::time::Instant::now` and its ordering: whether the
    /// deadline lies in the past. Nothing is assumed about the clock, so
    /// every caller must cope with either answer.
    #[verifier::external_body]
    pub fn expired(&self) -> bool {
        match self.inner {
            Some(deadline) => Instant::now() > deadline,
            None => false,
        }
    }
}

/// The move-ordering key: the cached evaluation of the position after the
/// move, at any depth, or a draw when the table has nothing.
fn sort_moves(a: &Move, board: CheckersBitBoard, table: &TranspositionTable) -> (r: Evaluation)
    requires
        table.wf(),
    ensures
        r == match table.spec_get_any_depth(a.spec_apply(board)) {
            Some(e) => e,
            None => Evaluation(0),
        },
{
    match table.get_any_depth(a.apply_to(board)) {
        Some(e) => e,
        None => Evaluation::draw(),
    }
}

/// Everything drawn from a buffer of legal encoded moves is itself legal.
proof fn lemma_drawn_from_all_legal(b: CheckersBitBoard, s: Seq<(u8, i16)>, t: Seq<(u8, i16)>)
    requires
        drawn_from(s, t),
        forall|j: int| 0 <= j < t.len() ==> spec_legal(b, Move((#[trigger] t[j]).0)),
    ensures
        forall|j: int| 0 <= j < s.len() ==> spec_legal(b, Move((#[trigger] s[j]).0)),
{
    assert forall|j: int| 0 <= j < s.len() implies spec_legal(b, Move((#[trigger] s[j]).0)) by {
        assert(t.contains(s[j]));
        let k = choose|k: int| 0 <= k < t.len() && t[k] == s[j];
        assert(spec_legal(b, Move(t[k].0)));
    }
}

/// Negamax with alpha-beta pruning: the value of `board` for the side to
/// move, and the move that reaches it. A transposition-table hit of
/// sufficient depth, a terminal position, or a depth of zero answer at
/// once; otherwise every legal ply (or every allowed one, at the root) is
/// searched in the lazily sorted order, and the result lands in the table.
/// When the cancel flag is observed, whatever partial result exists comes
/// back.
pub fn negamax(
    depth: u8,
    alpha: Evaluation,
    beta: Evaluation,
    board: CheckersBitBoard,
    allowed_moves: Option<&Vec<Move>>,
    cancel_flag: &AtomicBool,
    task: &EvaluationTask,
    table: &mut TranspositionTable,
) -> (r: (Evaluation, Option<Move>))
    requires
        old(table).wf(),
        alpha.valid(),
        beta.valid(),
        allowed_moves matches Some(ms) ==> all_legal(board, ms@) && ms@.len()
            <= MOVE_BUFFER_CAPACITY,
    ensures
        final(table).wf(),
        r.0.valid(),
        r.1 matches Some(m) ==> spec_legal(board, m),
        depth == 0 ==> r.1 is None && r.0 == if board.turn is Dark {
            crate::eval::spec_eval_position(board)
        } else {
            crate::eval::spec_eval_position(board).spec_neg()
        },
        depth >= 1 ==> (old(table).spec_get(board, depth) matches Some(e) ==> r == (
            e,
            None::<Move>,
        )),
        depth >= 1 && old(table).spec_get(board, depth) is None && (match allowed_moves {
            Some(ms) => ms@.len() == 0,
            None => spec_iter_moves(spec_moves(board)).len() == 0,
        }) ==> r == (Evaluation(crate::eval::LOSS_VALUE), None::<Move>),
    decreases depth,
{
    task.nodes_explored.fetch_add(1, Ordering::Release);

    if depth < 1 {
        let e = eval_position(board);
        if board.turn() == PieceColor::Dark {
            (e, None)
        } else {
            (e.neg(), None)
        }
    } else {
        if let Some(entry) = table.get(board, depth) {
            return (entry, None);
        }
        let turn = board.turn();
        let mut best_eval = Evaluation::null_min();
        let mut best_move: Option<Move> = None;
        let mut alpha = alpha;

        let moves_vec: Vec<Move> = match allowed_moves {
            Some(ms) => {
                let mut v: Vec<Move> = Vec::new();
                let mut i: usize = 0;
                while i < ms.len()
                    invariant
                        i <= ms@.len(),
                        v@ == ms@.take(i as int),
                    decreases ms@.len() - i,
                {
                    v.push(ms[i]);
                    proof {
                        assert(v@ =~= ms@.take(i + 1));
                    }
                    i = i + 1;
                }
                proof {
                    assert(v@ =~= ms@);
                }
                v
            },
            None => {
                proof {
                    crate::laws::lemma_iter_moves_legal(board);
                    crate::possible_moves::lemma_iter_moves_len(spec_moves(board));
                }
                PossibleMoves::moves(board).to_iter().moves
            },
        };
        assert(all_legal(board, moves_vec@));
        assert(moves_vec@.len() <= MOVE_BUFFER_CAPACITY);

        let mut items: Vec<(Move, i16)> = Vec::new();
        let mut i: usize = 0;
        while i < moves_vec.len()
            invariant
                table.wf(),
                i <= moves_vec@.len(),
                items@.len() == i,
                all_legal(board, moves_vec@),
                forall|j: int| 0 <= j < i ==> (#[trigger] items@[j]).0 == moves_vec@[j],
            decreases moves_vec@.len() - i,
        {
            let m = moves_vec[i];
            let key = sort_moves(&m, board, table).units();
            items.push((m, key));
            i = i + 1;
        }
        proof {
            assert forall|j: int| 0 <= j < items@.len() implies spec_legal(
                board,
                (#[trigger] items@[j]).0,
            ) by {
                assert(items@[j].0 == moves_vec@[j]);
            }
        }

        let mut sorter = LazySort::new(items);
        proof {
            assert forall|j: int| 0 <= j < sorter.pairs().len() implies spec_legal(
                board,
                Move((#[trigger] sorter.pairs()[j]).0),
            ) by {
                assert(sorter.pairs()[j] == (items@[j].0.0, items@[j].1));
                assert(Move(items@[j].0.0) == items@[j].0);
            }
        }
        if sorter.is_empty() {
            return (Evaluation::loss(), None);
        }

        let n = sorter.len();
        let mut i: usize = 0;
        while i < n
            invariant
                depth >= 1,
                n > 0,
                old(table).spec_get(board, depth) is None,
                match allowed_moves {
                    Some(ms) => ms@.len() > 0,
                    None => spec_iter_moves(spec_moves(board)).len() > 0,
                },
                n == sorter.pairs().len(),
                i <= n,
                sorter.wf(),
                table.wf(),
                alpha.valid(),
                beta.valid(),
                best_eval.valid(),
                forall|j: int|
                    0 <= j < sorter.pairs().len() ==> spec_legal(
                        board,
                        Move((#[trigger] sorter.pairs()[j]).0),
                    ),
                best_move matches Some(m) ==> spec_legal(board, m),
            decreases n - i,
        {
            if cancel_flag.load(Ordering::Acquire) {
                return (best_eval, best_move);
            }

            let ghost before = sorter.pairs();
            let got = sorter.get(i);
            proof {
                lemma_drawn_from_all_legal(board, sorter.pairs(), before);
            }
            let current_move = got.unwrap();

            let child = current_move.apply_to(board);
            let current_eval = if child.turn() == turn {
                let sub = negamax(depth - 1, alpha, beta, child, None, cancel_flag, task, table);
                sub.0.increment()
            } else {
                let sub = negamax(
                    depth - 1,
                    beta.neg(),
                    alpha.neg(),
                    child,
                    None,
                    cancel_flag,
                    task,
                    table,
                );
                sub.0.increment().neg()
            };

            if best_eval < current_eval {
                best_eval = current_eval;
                best_move = Some(current_move);
            }
            if alpha < best_eval {
                alpha = best_eval;
            }
            if alpha >= beta {
                return (best_eval, best_move);
            }
            i = i + 1;
        }

        table.insert(board, best_eval, depth);
        (best_eval, best_move)
    }
}

/// Iterative deepening with aspiration windows. Deeper and deeper searches
/// run until a limit or the cancel flag stops them; a search that lands
/// outside its aspiration window is retried with the window opened on the
/// failing side. The best move of the last completed iteration is reported
/// through the frontend, and when pondering was asked the search keeps
/// warming the table from the expected reply until it is told to stop.
pub fn search<F: Frontend>(
    task: &EvaluationTask,
    table: &mut TranspositionTable,
    frontend: &F,
) -> (r: (Evaluation, Option<Move>))
    requires
        old(table).wf(),
        task.allowed_moves matches Some(ms) ==> all_legal(task.position, ms@) && ms@.len()
            <= MOVE_BUFFER_CAPACITY,
    ensures
        final(table).wf(),
        r.0.valid(),
        r.1 matches Some(m) ==> spec_legal(task.position, m),
{
    let board = task.position;
    let cancel_flag = &task.cancel_flag;
    let limits = task.limits;
    let deadline = SearchDeadline::start(limits.time);

    let mut alpha = Evaluation::null_min();
    let mut beta = Evaluation::null_max();
    let mut depth: u8 = 0;
    let mut eval = Evaluation::draw();
    let mut best_move: Option<Move> = None;

    while depth < u8::MAX
        invariant
            table.wf(),
            alpha.valid(),
            beta.valid(),
            eval.valid(),
            best_move matches Some(m) ==> spec_legal(board, m),
            task.allowed_moves matches Some(ms) ==> all_legal(board, ms@) && ms@.len()
                <= MOVE_BUFFER_CAPACITY,
            board == task.position,
        decreases u8::MAX - depth,
    {
        if let Some(max_depth) = limits.depth {
            if depth > max_depth {
                break;
            }
        }
        if deadline.expired() {
            break;
        }
        if let Some(max_nodes) = limits.nodes {
            if task.nodes_explored.load(Ordering::Acquire) as u64 > max_nodes {
                break;
            }
        }

        let allowed: Option<&Vec<Move>> = match &task.allowed_moves {
            Some(v) => Some(v),
            None => None,
        };
        let em = negamax(depth, alpha, beta, board, allowed, cancel_flag, task, table);

        // an incomplete search must not overwrite the evaluation
        if cancel_flag.load(Ordering::Acquire) {
            break;
        }

        eval = em.0;
        best_move = em.1;

        while eval.units() <= alpha.units() || eval.units() >= beta.units()
            invariant
                table.wf(),
                alpha.valid(),
                beta.valid(),
                eval.valid(),
                best_move matches Some(m) ==> spec_legal(board, m),
                task.allowed_moves matches Some(ms) ==> all_legal(board, ms@) && ms@.len()
                    <= MOVE_BUFFER_CAPACITY,
                board == task.position,
            decreases (alpha.0 - NULL_MIN_VALUE) + (NULL_MAX_VALUE - beta.0),
        {
            let allowed: Option<&Vec<Move>> = match &task.allowed_moves {
                Some(v) => Some(v),
                None => None,
            };
            let em = negamax(depth, alpha, beta, board, allowed, cancel_flag, task, table);

            // an incomplete search must not overwrite the evaluation
            if cancel_flag.load(Ordering::Acquire) {
                break;
            }

            eval = em.0;
            best_move = em.1;

            if eval.units() <= alpha.units() {
                if alpha.units() == NULL_MIN_VALUE {
                    break;
                }
                alpha = Evaluation::null_min();
            } else if eval.units() >= beta.units() {
                if beta.units() == NULL_MAX_VALUE {
                    break;
                }
                beta = Evaluation::null_max();
            } else {
                break;
            }
        }

        if alpha.is_force_loss() {
            alpha = Evaluation::null_min();
        } else {
            alpha = eval.translate(-ASPIRATION_MARGIN);
        }
        if beta.is_force_win() {
            beta = Evaluation::null_max();
        } else {
            beta = eval.translate(ASPIRATION_MARGIN);
        }

        depth = depth + 1;
    }

    if let Some(reported) = best_move {
        frontend.report_best_move(reported);

        if task.ponder {
            let ponder_board = reported.apply_to(board);
            let mut ponder_depth: u8 = 0;
            while ponder_depth < u8::MAX
                invariant
                    table.wf(),
                decreases u8::MAX - ponder_depth,
            {
                if task.end_ponder_flag.load(Ordering::Acquire) {
                    break;
                }
                negamax(
                    ponder_depth,
                    Evaluation::null_min(),
                    Evaluation::null_max(),
                    ponder_board,
                    None,
                    &task.end_ponder_flag,
                    task,
                    table,
                );
                ponder_depth = ponder_depth + 1;
            }
        }
    }

    (eval, best_move)
}

/// The best move of a position by a fixed-depth search with a fresh
/// transposition table, considering every legal move so that any of them
/// may be chosen.
pub fn best_move(depth: u8, board: CheckersBitBoard) -> (r: Move)
    requires
        depth >= 1,
        spec_iter_moves(spec_moves(board)).len() > 0,
    ensures
        spec_legal(board, r),
{
    let task = EvaluationTask {
        position: board,
        allowed_moves: None,
        limits: ActualLimit { nodes: None, depth: None, time: None },
        ponder: false,
        cancel_flag: AtomicBool::new(false),
        end_ponder_flag: AtomicBool::new(false),
        nodes_explored: AtomicUsize::new(0),
    };
    let mut table = TranspositionTable::new(65536);

    proof {
        crate::laws::lemma_iter_moves_legal(board);
    }
    let moves = PossibleMoves::moves(board).to_iter().moves;
    let turn = board.turn();

    let mut best_eval = Evaluation::null_min();
    let mut best: Option<Move> = None;
    let mut i: usize = 0;
    while i < moves.len()
        invariant
            depth >= 1,
            table.wf(),
            i <= moves@.len(),
            moves@ == spec_iter_moves(spec_moves(board)),
            all_legal(board, moves@),
            best_eval.valid(),
            i > 0 ==> best is Some,
            best matches Some(m) ==> spec_legal(board, m),
        decreases moves@.len() - i,
    {
        let m = moves[i];
        let child = m.apply_to(board);
        let e = if child.turn() == turn {
            let sub = negamax(
                depth - 1,
                Evaluation::null_min(),
                Evaluation::null_max(),
                child,
                None,
                &task.cancel_flag,
                &task,
                &mut table,
            );
            sub.0.increment()
        } else {
            let sub = negamax(
                depth - 1,
                Evaluation::null_min(),
                Evaluation::null_max(),
                child,
                None,
                &task.cancel_flag,
                &task,
                &mut table,
            );
            sub.0.increment().neg()
        };
        if best.is_none() || best_eval < e {
            best_eval = e;
            best = Some(m);
        }
        i = i + 1;
    }
    best.unwrap()
}

} // verus!
