//! Sparse tables from small integer ids to values.

use vstd::prelude::*;

verus! {

/// A sparse table from ids to values.
///
/// A component storage has this shape, with entities as ids, and so does an
/// asset store, with handles as ids. An id is present when its slot exists
/// and is filled; walking the table means walking the slots in rising order.
#[derive(Clone, Debug, PartialEq, Eq)]
pub struct Storage<T> {
    pub slots: Vec<Option<T>>,
}

impl<T> View for Storage<T> {
    type V = Map<usize, T>;

    /// The table as a map from the ids that are present to their values.
    open spec fn view(&self) -> Map<usize, T> {
        Map::new(
            |id: usize| id < self.slots@.len() && self.slots@[id as int] is Some,
            |id: usize| self.slots@[id as int]->0,
        )
    }
}

impl<T> Storage<T> {
    /// A table with no id present.
    pub fn new() -> (r: Self)
        ensures
            r@ == Map::<usize, T>::empty(),
            r.slots@.len() == 0,
    {
        let r = Storage { slots: Vec::new() };
        assert(r@ =~= Map::<usize, T>::empty());
        r
    }

    /// Puts `value` under `id` and returns what was there before.
    pub fn insert(&mut self, id: usize, value: T) -> (r: Option<T>)
        requires
            id < usize::MAX,
        ensures
            final(self)@ == old(self)@.insert(id, value),
            r == (if old(self)@.dom().contains(id) {
                Some(old(self)@[id])
            } else {
                None
            }),
    {
        while self.slots.len() <= id
            invariant
                id < usize::MAX,
                self@ == old(self)@,
                self.slots@.len() >= old(self).slots@.len(),
            decreases id + 1 - self.slots@.len(),
        {
            let ghost before = self@;
            self.slots.push(None);
            assert(self@ =~= before);
        }
        let mut slot = Some(value);
        self.slots.set_and_swap(id, &mut slot);
        assert(self@ =~= old(self)@.insert(id, value));
        slot
    }

    /// The value under `id`, if the id is present.
    pub fn get(&self, id: usize) -> (r: Option<&T>)
        ensures
            r == (if self@.dom().contains(id) {
                Some(&self@[id])
            } else {
                None
            }),
    {
        if id < self.slots.len() {
            self.slots[id].as_ref()
        } else {
            None
        }
    }
}

} // verus!
