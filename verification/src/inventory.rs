//! Items of the bag marked for sale.

use vstd::prelude::*;
use std::collections::HashSet;
use vstd::std_specs::iter::IteratorSpec;
use vstd::std_specs::hash::spec_hash_keys_iter;

verus! {

broadcast use vstd::std_specs::hash::group_hash_axioms;

/// The positions of the bag's items that are marked for sale.
pub struct SellQueue {
    marked: HashSet<usize>,
}

impl View for SellQueue {
    type V = Set<usize>;

    closed spec fn view(&self) -> Set<usize> {
        self.marked@
    }
}

impl SellQueue {
    /// No item is marked.
    pub fn new() -> (q: Self)
        ensures
            q@ == Set::<usize>::empty(),
    {
        SellQueue { marked: HashSet::new() }
    }

    /// Whether the item at `index` is marked.
    pub fn contains(&self, index: usize) -> (b: bool)
        ensures
            b == self@.contains(index),
    {
        self.marked.contains(&index)
    }

    /// Whether no item is marked.
    pub fn is_empty(&self) -> (b: bool)
        ensures
            b == (self@.len() == 0),
    {
        self.marked.len() == 0
    }

    /// Marks the item at `index` for sale, or unmarks it if it was marked.
    pub fn toggle(&mut self, index: usize)
        ensures
            final(self)@ == if old(self)@.contains(index) {
                old(self)@.remove(index)
            } else {
                old(self)@.insert(index)
            },
    {
        if !self.marked.remove(&index) {
            self.marked.insert(index);
        }
    }

    /// Unmarks the item at `index` (it is being equipped).
    pub fn unmark(&mut self, index: usize)
        ensures
            final(self)@ == old(self)@.remove(index),
    {
        self.marked.remove(&index);
    }

    /// Unmarks every item (the inventory was closed).
    pub fn clear(&mut self)
        ensures
            final(self)@ == Set::<usize>::empty(),
    {
        self.marked.clear();
    }

    /// Empties the queue and returns the marked positions, each once and in
    /// no particular order, as the bytes that the sell message carries
    /// (positions are cut to their low byte).
    pub fn drain_for_sale(&mut self) -> (indexes: Vec<u8>)
        ensures
            final(self)@ == Set::<usize>::empty(),
            exists|s: Seq<usize>|
                s.no_duplicates() && s.to_set() == old(self)@ && indexes@.len() == s.len() && forall|
                    i: int,
                | 0 <= i < s.len() ==> indexes@[i] == #[trigger] s[i] as u8,
    {
        let mut indexes: Vec<u8> = Vec::new();
        let ghost keys = spec_hash_keys_iter(&self.marked).remaining();
        for x in it: self.marked.iter()
            invariant
                it.seq() == keys,
                indexes@.len() == it.index(),
                forall|i: int| 0 <= i < it.index() ==> indexes@[i] == #[trigger] (*it.seq()[i]) as u8,
        {
            indexes.push(*x as u8);
        }
        proof {
            let s = keys.unref();
            assert(indexes@.len() == s.len());
            assert forall|i: int| 0 <= i < s.len() implies indexes@[i] == #[trigger] s[i] as u8 by {
            }
        }
        self.marked.clear();
        indexes
    }
}

} // verus!
