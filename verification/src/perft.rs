//! Perft: counting the positions reachable in a fixed number of plies.

use vstd::prelude::*;

use crate::board::CheckersBitBoard;
use crate::moves::Move;
use crate::possible_moves::{spec_iter_moves, spec_moves, PossibleMoves};

verus! {

/// The number of positions reachable from `board` in exactly `depth` plies,
/// summed over the legal moves in iteration order.
pub open spec fn spec_perft(board: CheckersBitBoard, depth: nat) -> nat
    decreases depth, 1nat, 0nat,
{
    if depth == 0 {
        1
    } else {
        spec_perft_sum(board, spec_iter_moves(spec_moves(board)), depth)
    }
}

/// The positions reachable through each of the given moves in `depth` plies.
pub open spec fn spec_perft_sum(board: CheckersBitBoard, moves: Seq<Move>, depth: nat) -> nat
    decreases depth, 0nat, moves.len(),
{
    if depth == 0 || moves.len() == 0 {
        0
    } else {
        spec_perft_sum(board, moves.drop_last(), depth) + spec_perft(
            moves.last().spec_apply(board),
            (depth - 1) as nat,
        )
    }
}

/// A prefix of the moves counts no more positions than all of them.
proof fn lemma_perft_sum_prefix(board: CheckersBitBoard, moves: Seq<Move>, depth: nat, n: int)
    requires
        0 <= n <= moves.len(),
        depth > 0,
    ensures
        spec_perft_sum(board, moves.take(n), depth) <= spec_perft_sum(board, moves, depth),
        n < moves.len() ==> spec_perft_sum(board, moves.take(n + 1), depth) == spec_perft_sum(
            board,
            moves.take(n),
            depth,
        ) + spec_perft(moves[n].spec_apply(board), (depth - 1) as nat),
    decreases moves.len(),
{
    if n < moves.len() {
        assert(moves.take(n + 1).drop_last() =~= moves.take(n));
        assert(moves.take(n + 1).last() == moves[n]);
    }
    if n == moves.len() {
        assert(moves.take(n) =~= moves);
    } else {
        // walk the prefix up one step at a time
        assert(moves.take(moves.len() as int) =~= moves);
        lemma_perft_sum_prefix(board, moves.drop_last(), depth, if n <= moves.len() - 1 {
            n
        } else {
            moves.len() - 1
        });
        assert(moves.drop_last().take(n) =~= moves.take(n));
    }
}

/// Counts the positions reachable from `board` in exactly `depth` plies.
pub fn positions(board: CheckersBitBoard, depth: usize) -> (r: u64)
    requires
        spec_perft(board, depth as nat) <= u64::MAX,
    ensures
        r == spec_perft(board, depth as nat),
    decreases depth,
{
    if depth == 0 {
        1
    } else {
        let moves = PossibleMoves::moves(board).to_iter().moves;
        let ghost ms = moves@;
        let mut total: u64 = 0;
        let mut i: usize = 0;
        while i < moves.len()
            invariant
                depth >= 1,
                moves@ == ms,
                ms == spec_iter_moves(spec_moves(board)),
                i <= ms.len(),
                total == spec_perft_sum(board, ms.take(i as int), depth as nat),
                spec_perft(board, depth as nat) <= u64::MAX,
            decreases ms.len() - i,
        {
            let m = moves[i];
            let child = m.apply_to(board);
            proof {
                lemma_perft_sum_prefix(board, ms, depth as nat, i as int);
                lemma_perft_sum_prefix(board, ms, depth as nat, i + 1);
                assert(spec_perft_sum(board, ms, depth as nat) == spec_perft(
                    board,
                    depth as nat,
                ));
            }
            let sub = positions(child, depth - 1);
            total = total + sub;
            i = i + 1;
        }
        proof {
            assert(ms.take(ms.len() as int) =~= ms);
        }
        total
    }
}

} // verus!
