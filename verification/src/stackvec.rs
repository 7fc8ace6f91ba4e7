//! A vector with a fixed capacity, for small buffers the search fills and
//! drains on the stack.

use vstd::prelude::*;

verus! {

/// A vector that holds at most `CAPACITY` elements.
pub struct StackVec<T, const CAPACITY: usize> {
    pub values: Vec<T>,
}

impl<T, const CAPACITY: usize> StackVec<T, CAPACITY> {
    /// The elements never outgrow the capacity.
    pub open spec fn wf(self) -> bool {
        self.values@.len() <= CAPACITY
    }

    /// Creates an empty vector.
    pub fn new() -> (r: Self)
        ensures
            r.values@ == Seq::<T>::empty(),
            r.wf(),
    {
        Self { values: Vec::new() }
    }

    /// How many elements the vector can hold.
    pub fn capcity(&self) -> (r: usize)
        ensures
            r == CAPACITY,
    {
        CAPACITY
    }

    /// How many elements the vector holds.
    pub fn len(&self) -> (r: usize)
        ensures
            r == self.values@.len(),
    {
        self.values.len()
    }

    /// Whether the vector is empty.
    pub fn is_empty(&self) -> (r: bool)
        ensures
            r == (self.values@.len() == 0),
    {
        self.values.len() == 0
    }

    /// The element at `index`.
    pub fn get(&self, index: usize) -> (r: &T)
        requires
            index < self.values@.len(),
        ensures
            *r == self.values@[index as int],
    {
        &self.values[index]
    }

    /// Appends an element if there is room for it, and says whether there
    /// was.
    pub fn try_push(&mut self, value: T) -> (r: Option<()>)
        requires
            old(self).wf(),
        ensures
            final(self).wf(),
            old(self).values@.len() < CAPACITY ==> r == Some(()) && final(self).values@ == old(self).values@.push(value),
            old(self).values@.len() >= CAPACITY ==> r == None::<()> && final(self).values@ == old(self).values@,
    {
        if self.values.len() < CAPACITY {
            self.values.push(value);
            Some(())
        } else {
            None
        }
    }

    /// Appends an element. The vector must have room for it.
    pub fn push(&mut self, value: T)
        requires
            old(self).values@.len() < CAPACITY,
        ensures
            final(self).wf(),
            final(self).values@ == old(self).values@.push(value),
    {
        self.values.push(value);
    }

    /// Removes and returns the last element, or `None` when the vector is
    /// empty.
    pub fn pop(&mut self) -> (r: Option<T>)
        requires
            old(self).wf(),
        ensures
            final(self).wf(),
            old(self).values@.len() == 0 ==> r is None && final(self).values@ == old(self).values@,
            old(self).values@.len() > 0 ==> r == Some(old(self).values@.last()) && final(self).values@ == old(self).values@.drop_last(),
    {
        if self.values.len() == 0 {
            return None;
        }
        Some(self.values.pop().unwrap())
    }

    /// Removes every element.
    pub fn clear(&mut self)
        ensures
            final(self).values@ == Seq::<T>::empty(),
            final(self).wf(),
    {
        self.values.clear();
    }
}

} // verus!
