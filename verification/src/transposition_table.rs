//! A two-layer transposition table.
//!
//! Both layers are indexed by the weak position hash. The replace layer
//! always takes the newest entry; the depth layer keeps the entry of the
//! greatest search depth. A lookup trusts an entry only after checking full
//! board equality, so hash collisions cost time and never correctness.

use vstd::prelude::*;

use crate::board::{spec_board_eq, CheckersBitBoard};
use crate::eval::Evaluation;

verus! {

/// One stored position: the board, its evaluation, and the depth it was
/// searched to.
#[derive(Copy, Clone, Debug)]
pub struct TranspositionTableEntry {
    pub board: CheckersBitBoard,
    pub eval: Evaluation,
    pub depth: u8,
}

impl TranspositionTableEntry {
    /// Creates an entry.
    pub fn new(board: CheckersBitBoard, eval: Evaluation, depth: u8) -> (r: Self)
        ensures
            r == (TranspositionTableEntry { board, eval, depth }),
    {
        Self { board, eval, depth }
    }
}

/// A two-layer transposition table with an always-replace layer and a
/// depth-preferred layer.
pub struct TranspositionTable {
    pub replace_table: Vec<Option<TranspositionTableEntry>>,
    pub depth_table: Vec<Option<TranspositionTableEntry>>,
}

impl TranspositionTable {
    /// The two layers have the same non-zero number of buckets, and every
    /// stored depth is non-zero.
    pub open spec fn wf(self) -> bool {
        &&& self.replace_table@.len() == self.depth_table@.len()
        &&& self.replace_table@.len() > 0
        &&& forall|i: int|
            0 <= i < self.replace_table@.len() ==> ((#[trigger] self.replace_table@[i]) matches
            Some(e) ==> e.depth >= 1 && e.eval.valid())
        &&& forall|i: int|
            0 <= i < self.depth_table@.len() ==> ((#[trigger] self.depth_table@[i]) matches Some(
                e,
            ) ==> e.depth >= 1 && e.eval.valid())
    }

    /// The bucket a board hashes to.
    pub open spec fn spec_index(self, board: CheckersBitBoard) -> int {
        board.pieces as int % self.replace_table@.len() as int
    }

    /// What a depth-bounded probe returns: the evaluation of a matching
    /// entry of at least the wanted depth, the replace layer first.
    pub open spec fn spec_get(self, board: CheckersBitBoard, depth: u8) -> Option<Evaluation> {
        let i = self.spec_index(board);
        if self.replace_table@[i] matches Some(e) && spec_board_eq(e.board, board) && e.depth
            >= depth {
            Some(self.replace_table@[i]->Some_0.eval)
        } else if self.depth_table@[i] matches Some(e) && spec_board_eq(e.board, board) && e.depth
            >= depth {
            Some(self.depth_table@[i]->Some_0.eval)
        } else {
            None
        }
    }

    /// What an unbounded probe returns: the evaluation of a matching entry
    /// of any depth, the depth-preferred layer first.
    pub open spec fn spec_get_any_depth(self, board: CheckersBitBoard) -> Option<Evaluation> {
        let i = self.spec_index(board);
        if self.depth_table@[i] matches Some(e) && spec_board_eq(e.board, board) {
            Some(self.depth_table@[i]->Some_0.eval)
        } else if self.replace_table@[i] matches Some(e) && spec_board_eq(e.board, board) {
            Some(self.replace_table@[i]->Some_0.eval)
        } else {
            None
        }
    }

    /// How an insertion relates the old table to the new one: the replace
    /// layer always takes the entry; the depth layer takes it when its
    /// bucket is empty or holds an entry of no greater depth.
    pub open spec fn spec_inserted(
        self,
        post: Self,
        board: CheckersBitBoard,
        eval: Evaluation,
        depth: u8,
    ) -> bool {
        let i = self.spec_index(board);
        let entry = TranspositionTableEntry { board, eval, depth };
        &&& post.replace_table@ == self.replace_table@.update(i, Some(entry))
        &&& post.depth_table@ == if self.depth_table@[i] matches Some(e) && depth < e.depth {
            self.depth_table@
        } else {
            self.depth_table@.update(i, Some(entry))
        }
    }

    /// Creates a table that can hold `table_size / 2` buckets in each layer.
    pub fn new(table_size: usize) -> (r: Self)
        requires
            table_size >= 2,
        ensures
            r.wf(),
            r.replace_table@.len() == table_size / 2,
            forall|i: int| 0 <= i < table_size / 2 ==> r.replace_table@[i] is None,
            forall|i: int| 0 <= i < table_size / 2 ==> r.depth_table@[i] is None,
    {
        let buckets = table_size / 2;
        let mut replace_table: Vec<Option<TranspositionTableEntry>> = Vec::new();
        let mut depth_table: Vec<Option<TranspositionTableEntry>> = Vec::new();
        let mut i: usize = 0;
        while i < buckets
            invariant
                i <= buckets,
                replace_table@.len() == i,
                depth_table@.len() == i,
                forall|j: int| 0 <= j < i ==> replace_table@[j] is None,
                forall|j: int| 0 <= j < i ==> depth_table@[j] is None,
            decreases buckets - i,
        {
            replace_table.push(None);
            depth_table.push(None);
            i = i + 1;
        }
        TranspositionTable { replace_table, depth_table }
    }

    /// Probes the table for `board` at depth at least `depth`.
    pub fn get(&self, board: CheckersBitBoard, depth: u8) -> (r: Option<Evaluation>)
        requires
            self.wf(),
        ensures
            r == self.spec_get(board, depth),
    {
        let table_len = self.replace_table.len();
        let idx = (board.hash_code() as usize) % table_len;

        let entry = self.replace_table[idx];
        if let Some(entry) = entry {
            if entry.board == board && entry.depth >= depth {
                return Some(entry.eval);
            }
        }

        let entry = self.depth_table[idx];
        match entry {
            Some(entry) => {
                if entry.board == board {
                    if entry.depth >= depth {
                        Some(entry.eval)
                    } else {
                        None
                    }
                } else {
                    None
                }
            },
            None => None,
        }
    }

    /// Probes the table for `board` at any depth, for move ordering.
    pub fn get_any_depth(&self, board: CheckersBitBoard) -> (r: Option<Evaluation>)
        requires
            self.wf(),
        ensures
            r == self.spec_get_any_depth(board),
    {
        let table_len = self.replace_table.len();
        let idx = (board.hash_code() as usize) % table_len;

        let entry = self.depth_table[idx];
        if let Some(entry) = entry {
            if entry.board == board {
                return Some(entry.eval);
            }
        }

        let entry = self.replace_table[idx];
        match entry {
            Some(entry) => {
                if entry.board == board {
                    Some(entry.eval)
                } else {
                    None
                }
            },
            None => None,
        }
    }

    /// Stores `board` with its evaluation and search depth.
    pub fn insert(&mut self, board: CheckersBitBoard, eval: Evaluation, depth: u8)
        requires
            old(self).wf(),
            depth >= 1,
            eval.valid(),
        ensures
            final(self).wf(),
            final(self).replace_table@.len() == old(self).replace_table@.len(),
            old(self).spec_inserted(*final(self), board, eval, depth),
    {
        let table_len = self.replace_table.len();
        let idx = (board.hash_code() as usize) % table_len;

        self.replace_table[idx] = Some(TranspositionTableEntry::new(board, eval, depth));

        let entry = self.depth_table[idx];
        match entry {
            Some(entry_val) => {
                if depth >= entry_val.depth {
                    self.depth_table[idx] = Some(TranspositionTableEntry::new(board, eval, depth));
                }
            },
            None => {
                self.depth_table[idx] = Some(TranspositionTableEntry::new(board, eval, depth));
            },
        }
    }
}

/// After an insertion, a probe for the same board at no greater depth hits
/// the fresh entry in the replace layer, whatever stood in the table before.
pub proof fn lemma_get_after_insert(
    t: TranspositionTable,
    t2: TranspositionTable,
    board: CheckersBitBoard,
    eval: Evaluation,
    depth: u8,
    probe_depth: u8,
)
    requires
        t.wf(),
        t2.wf(),
        t2.replace_table@.len() == t.replace_table@.len(),
        t.spec_inserted(t2, board, eval, depth),
        depth >= 1,
        probe_depth <= depth,
    ensures
        t2.spec_get(board, probe_depth) == Some(eval),
{
    assert(t2.replace_table@[t2.spec_index(board)] == Some(
        TranspositionTableEntry { board, eval, depth },
    ));
    assert(spec_board_eq(board, board));
}

} // verus!
