//! Lazy selection sort over a small keyed move list.
//!
//! The searcher often prunes after the first few moves, so the list is
//! sorted one position at a time: before position `i` is handed out, a
//! selection pass brings the smallest remaining key to each position up to
//! `i`, and positions past `i` stay untouched. The list lives in an inline
//! `arrayvec::ArrayVec` of encoded moves and their keys.

use arrayvec::ArrayVec;
use vstd::prelude::*;

use crate::moves::Move;

verus! {

/// The most plies the keyed buffer can ever be asked to hold: four
/// directions over thirty-two squares.
pub const MOVE_BUFFER_CAPACITY: usize = 128;

/// `arrayvec::ArrayVec`, declared so that the sorter can hold one.
#[verifier::external_type_specification]
#[verifier::external_body]
#[verifier::reject_recursive_types(T)]
pub struct ExArrayVec<T, const CAP: usize>(ArrayVec<T, CAP>);

/// What a keyed move buffer holds: each element an encoded move with its
/// sort key, in buffer order.
pub uninterp spec fn av_pairs(v: ArrayVec<(u8, i16), 128>) -> Seq<(u8, i16)>;

/// Relies on `ArrayVec::new`: a fresh buffer is empty.
#[verifier::external_body]
fn av_new() -> (r: ArrayVec<(u8, i16), 128>)
    ensures
        av_pairs(r) == Seq::<(u8, i16)>::empty(),
{
    ArrayVec::new()
}

/// Relies on `ArrayVec::len`: how many elements the buffer holds.
#[verifier::external_body]
fn av_len(v: &ArrayVec<(u8, i16), 128>) -> (r: usize)
    ensures
        r == av_pairs(*v).len(),
{
    v.len()
}

/// Relies on `ArrayVec::push`: appends to a buffer that has room; on a full
/// one it would panic, so a full one is ruled out.
#[verifier::external_body]
fn av_push(v: &mut ArrayVec<(u8, i16), 128>, x: (u8, i16))
    requires
        av_pairs(*old(v)).len() < 128,
    ensures
        av_pairs(*final(v)) == av_pairs(*old(v)).push(x),
{
    v.push(x)
}

/// Relies on indexing through `ArrayVec`'s deref to a slice: the element at
/// `i`; out of range it would panic, so that is ruled out.
#[verifier::external_body]
fn av_get(v: &ArrayVec<(u8, i16), 128>, i: usize) -> (r: (u8, i16))
    requires
        i < av_pairs(*v).len(),
    ensures
        r == av_pairs(*v)[i as int],
{
    v[i]
}

/// Relies on the slice `swap` through `ArrayVec`'s deref: exchanges two
/// elements; out of range it would panic, so that is ruled out.
#[verifier::external_body]
fn av_swap(v: &mut ArrayVec<(u8, i16), 128>, i: usize, j: usize)
    requires
        i < av_pairs(*old(v)).len(),
        j < av_pairs(*old(v)).len(),
    ensures
        av_pairs(*final(v)) == av_pairs(*old(v)).update(
            i as int,
            av_pairs(*old(v))[j as int],
        ).update(j as int, av_pairs(*old(v))[i as int]),
{
    v.swap(i, j)
}

/// Every element of `s` is also an element of `t`.
pub open spec fn drawn_from(s: Seq<(u8, i16)>, t: Seq<(u8, i16)>) -> bool {
    forall|i: int| 0 <= i < s.len() ==> t.contains(#[trigger] s[i])
}

/// The keys of the first `n` elements are ascending, and none of them
/// exceeds any key at or past `n`.
pub open spec fn prefix_selected(s: Seq<(u8, i16)>, n: int) -> bool {
    forall|a: int, b: int| 0 <= a < n && a <= b < s.len() ==> (#[trigger] s[a]).1 <= (
    #[trigger] s[b]).1
}

/// A keyed move list that sorts itself by ascending key, one position at a
/// time.
pub struct LazySort {
    pub items: ArrayVec<(u8, i16), 128>,
    pub sorted: usize,
}

impl LazySort {
    /// The buffer's elements, in order.
    pub open spec fn pairs(self) -> Seq<(u8, i16)> {
        av_pairs(self.items)
    }

    /// The sorted prefix really is selected.
    pub open spec fn wf(self) -> bool {
        self.sorted <= self.pairs().len() && prefix_selected(self.pairs(), self.sorted as int)
    }

    /// Takes a list of moves with their sort keys.
    pub fn new(items: Vec<(Move, i16)>) -> (r: Self)
        requires
            items@.len() <= MOVE_BUFFER_CAPACITY,
        ensures
            r.sorted == 0,
            r.wf(),
            r.pairs().len() == items@.len(),
            forall|i: int|
                0 <= i < items@.len() ==> #[trigger] r.pairs()[i] == ((#[trigger] items@[i]).0.0,
                items@[i].1),
    {
        let mut buffer = av_new();
        let mut i: usize = 0;
        while i < items.len()
            invariant
                i <= items@.len(),
                items@.len() <= MOVE_BUFFER_CAPACITY,
                av_pairs(buffer).len() == i,
                forall|j: int|
                    0 <= j < i ==> #[trigger] av_pairs(buffer)[j] == ((#[trigger] items@[j]).0.0,
                    items@[j].1),
            decreases items@.len() - i,
        {
            let (m, key) = items[i];
            av_push(&mut buffer, (m.0, key));
            i = i + 1;
        }
        Self { items: buffer, sorted: 0 }
    }

    /// Whether the list is empty.
    pub fn is_empty(&self) -> (r: bool)
        ensures
            r == (self.pairs().len() == 0),
    {
        av_len(&self.items) == 0
    }

    /// How many moves the list holds.
    pub fn len(&self) -> (r: usize)
        ensures
            r == self.pairs().len(),
    {
        av_len(&self.items)
    }

    /// One selection pass: brings the smallest key of `index..` to `index`.
    fn sort(&mut self, index: usize)
        requires
            old(self).wf(),
            old(self).sorted == index,
            index < old(self).pairs().len(),
        ensures
            final(self).wf(),
            final(self).sorted == index + 1,
            final(self).pairs().len() == old(self).pairs().len(),
            drawn_from(final(self).pairs(), old(self).pairs()),
    {
        let len = av_len(&self.items);
        let mut min_index: usize = index;
        let mut i: usize = index + 1;
        while i < len
            invariant
                index <= min_index < i <= len,
                len == self.pairs().len(),
                forall|j: int|
                    index <= j < i ==> self.pairs()[min_index as int].1 <= (
                    #[trigger] self.pairs()[j]).1,
            decreases len - i,
        {
            if av_get(&self.items, i).1 < av_get(&self.items, min_index).1 {
                min_index = i;
            }
            i = i + 1;
        }
        let ghost pre = self.pairs();
        if min_index != index {
            av_swap(&mut self.items, index, min_index);
            proof {
                assert forall|j: int|
                    0 <= j < self.pairs().len() implies pre.contains(
                    #[trigger] self.pairs()[j],
                ) by {
                    if j == index {
                        assert(self.pairs()[j] == pre[min_index as int]);
                    } else if j == min_index {
                        assert(self.pairs()[j] == pre[index as int]);
                    } else {
                        assert(self.pairs()[j] == pre[j]);
                    }
                }
            }
        } else {
            proof {
                lemma_drawn_from_refl(self.pairs());
            }
        }
        self.sorted = index + 1;
        proof {
            let s = self.pairs();
            assert forall|a: int, b: int|
                0 <= a < index + 1 && a <= b < s.len() implies (#[trigger] s[a]).1 <= (
            #[trigger] s[b]).1 by {
                if min_index != index {
                    if a < index {
                        if b == index {
                            assert(s[a] == pre[a] && s[b] == pre[min_index as int]);
                            assert(pre[a].1 <= pre[min_index as int].1);
                        } else if b == min_index {
                            assert(s[a] == pre[a] && s[b] == pre[index as int]);
                            assert(pre[a].1 <= pre[index as int].1);
                        } else {
                            assert(s[a] == pre[a] && s[b] == pre[b]);
                            assert(pre[a].1 <= pre[b].1);
                        }
                    } else {
                        assert(a == index);
                        assert(s[a] == pre[min_index as int]);
                        if b == min_index {
                            assert(s[b] == pre[index as int]);
                            assert(pre[min_index as int].1 <= pre[index as int].1);
                        } else if b > index {
                            assert(s[b] == pre[b]);
                            assert(pre[min_index as int].1 <= pre[b].1);
                        }
                    }
                } else {
                    if a < index {
                        assert(pre[a].1 <= pre[b].1);
                    } else {
                        assert(a == index);
                        assert(pre[min_index as int].1 <= pre[b].1);
                    }
                }
            }
        }
    }

    /// Selection passes for every position from the sorted prefix through
    /// `index`.
    fn sort_between(&mut self, start: usize, end: usize)
        requires
            old(self).wf(),
            old(self).sorted == start,
        ensures
            final(self).wf(),
            final(self).sorted >= old(self).sorted,
            end < final(self).pairs().len() ==> final(self).sorted > end,
            final(self).pairs().len() == old(self).pairs().len(),
            drawn_from(final(self).pairs(), old(self).pairs()),
    {
        let ghost orig = self.pairs();
        let n = av_len(&self.items);
        let mut i = start;
        while i <= end && i < n
            invariant
                self.wf(),
                self.sorted == i,
                i >= start,
                n == self.pairs().len(),
                self.pairs().len() == orig.len(),
                drawn_from(self.pairs(), orig),
            decreases end + 1 - i,
        {
            let ghost prev = self.pairs();
            self.sort(i);
            proof {
                lemma_drawn_from_trans(self.pairs(), prev, orig);
            }
            i = i + 1;
        }
    }

    /// The move at `index` once everything up to it is sorted, or `None`
    /// when the index is out of range.
    pub fn get(&mut self, index: usize) -> (r: Option<Move>)
        requires
            old(self).wf(),
        ensures
            final(self).wf(),
            final(self).pairs().len() == old(self).pairs().len(),
            drawn_from(final(self).pairs(), old(self).pairs()),
            index < old(self).pairs().len() ==> r == Some(
                Move(final(self).pairs()[index as int].0),
            ) && prefix_selected(final(self).pairs(), index + 1),
            index >= old(self).pairs().len() ==> r == None::<Move>,
    {
        if index >= self.sorted {
            let s = self.sorted;
            self.sort_between(s, index);
        } else {
            proof {
                lemma_drawn_from_refl(self.pairs());
            }
        }
        if index < av_len(&self.items) {
            Some(Move(av_get(&self.items, index).0))
        } else {
            None
        }
    }
}

/// Being drawn from a list is transitive.
proof fn lemma_drawn_from_trans(s: Seq<(u8, i16)>, t: Seq<(u8, i16)>, u: Seq<(u8, i16)>)
    requires
        drawn_from(s, t),
        drawn_from(t, u),
    ensures
        drawn_from(s, u),
{
    assert forall|i: int| 0 <= i < s.len() implies u.contains(#[trigger] s[i]) by {
        assert(t.contains(s[i]));
        let j = choose|j: int| 0 <= j < t.len() && t[j] == s[i];
        assert(u.contains(t[j]));
    }
}

/// Every list is drawn from itself.
proof fn lemma_drawn_from_refl(s: Seq<(u8, i16)>)
    ensures
        drawn_from(s, s),
{
    assert forall|i: int| 0 <= i < s.len() implies s.contains(#[trigger] s[i]) by {
        assert(s[i] == s[i]);
    }
}

/// An iterator over a lazily sorted move list, smallest key first.
pub struct LazySortIter {
    pub sorter: LazySort,
    pub index: usize,
}

impl LazySortIter {
    /// Starts iterating a keyed move list.
    pub fn new(sorter: LazySort) -> (r: Self)
        requires
            sorter.wf(),
        ensures
            r.sorter == sorter,
            r.index == 0,
            r.wf(),
    {
        Self { sorter, index: 0 }
    }

    /// The underlying list stays well-formed.
    pub open spec fn wf(self) -> bool {
        self.sorter.wf()
    }

    /// The next move in ascending key order, or `None` when the list is
    /// exhausted.
    pub fn next(&mut self) -> (r: Option<Move>)
        requires
            old(self).wf(),
        ensures
            final(self).wf(),
            final(self).sorter.pairs().len() == old(self).sorter.pairs().len(),
            drawn_from(final(self).sorter.pairs(), old(self).sorter.pairs()),
            old(self).index < old(self).sorter.pairs().len() ==> r == Some(
                Move(final(self).sorter.pairs()[old(self).index as int].0),
            ) && final(self).index == old(self).index + 1,
            old(self).index >= old(self).sorter.pairs().len() ==> r == None::<Move> && final(self).index == old(self).index,
    {
        let i = self.index;
        let n = self.sorter.len();
        let r = self.sorter.get(i);
        if i < n {
            self.index = i + 1;
        }
        r
    }
}

} // verus!
