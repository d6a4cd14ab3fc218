//! The table of allocation blocks that all handles refer into.

use vstd::prelude::*;
use crate::allocation::Allocation;
use crate::model::{
    after_clone, after_downgrade, after_drop, after_new, after_weak_drop, after_write, settle,
    strong_live, valid_heap, weak_live, Block,
};

verus! {

/// A table of allocation blocks. Handles name a block by its position in the
/// table; a block whose counts have both reached zero is freed and its
/// position is given to a later allocation.
#[derive(Debug)]
pub struct Heap<T> {
    slots: Vec<Option<Allocation<T>>>,
    free: Vec<usize>,
    live: usize,
}

impl<T> View for Heap<T> {
    type V = Map<nat, Block<T>>;

    /// The blocks in use, by identifier.
    closed spec fn view(&self) -> Map<nat, Block<T>> {
        Map::new(
            |id: nat| id < self.slots.len() && self.slots[id as int] is Some,
            |id: nat| self.slots[id as int]->0@,
        )
    }
}

impl<T> Heap<T> {
    /// Every block in use is valid and referenced. Between the moment a
    /// count goes down and the moment the block is reclaimed, the block at
    /// `pending` may be left without a reference.
    spec fn blocks_sound(&self, pending: Option<int>) -> bool {
        forall|s: int|
            0 <= s < self.slots.len() ==> (#[trigger] self.slots[s] matches Some(a) ==> a.wf() && (
            a@.referenced() || pending == Some(s)))
    }

    /// The free list names vacant positions, each at most once.
    spec fn free_list_sound(&self) -> bool {
        &&& forall|i: int|
            0 <= i < self.free.len() ==> (#[trigger] self.free[i]) < self.slots.len()
                && self.slots[self.free[i] as int] is None
        &&& forall|i: int, j: int|
            0 <= i < j < self.free.len() ==> self.free[i] != self.free[j]
    }

    /// The counter of blocks in use is exact, and every position of the
    /// table is either in use or on the free list.
    spec fn count_sound(&self) -> bool {
        &&& self.live + self.free.len() == self.slots.len()
        &&& self@.dom().finite()
        &&& self@.dom().len() == self.live
    }

    /// The table's own bookkeeping is consistent: every block in use is valid
    /// and referenced, the free list names vacant positions only and none of
    /// them twice, and the blocks in use are counted correctly and account,
    /// with the free list, for every position of the table.
    pub closed spec fn inv(&self) -> bool {
        &&& self.blocks_sound(None)
        &&& self.free_list_sound()
        &&& self.count_sound()
    }

    /// Well-formedness: the bookkeeping is consistent and the heap, seen as a
    /// map of blocks, is valid.
    pub open spec fn wf(&self) -> bool {
        self.inv() && valid_heap(self@)
    }

    /// An empty heap.
    pub fn new() -> (heap: Self)
        ensures
            heap.wf(),
            heap@ == Map::<nat, Block<T>>::empty(),
    {
        let heap = Heap { slots: Vec::new(), free: Vec::new(), live: 0 };
        proof {
            assert(heap@ =~= Map::<nat, Block<T>>::empty());
        }
        heap
    }

    /// The number of blocks in use.
    pub fn block_count(&self) -> (n: usize)
        requires
            self.wf(),
        ensures
            n == self@.dom().len(),
    {
        self.live
    }

    /// Whether `slot` is the position of a block in use.
    pub(crate) fn in_use(&self, slot: usize) -> (used: bool)
        requires
            self.wf(),
        ensures
            used == self@.dom().contains(slot as nat),
    {
        slot < self.slots.len() && self.slots[slot].is_some()
    }

    /// Places `value` in a block of its own, with one owner and no observer,
    /// and returns the block's position.
    pub(crate) fn allocate(&mut self, value: T) -> (slot: usize)
        requires
            old(self).wf(),
        ensures
            final(self).wf(),
            !old(self)@.dom().contains(slot as nat),
            final(self)@ == after_new(old(self)@, slot as nat, value),
    {
        let block = Allocation::new(value);
        let slot: usize = match self.free.pop() {
            Some(slot) => {
                self.slots[slot] = Some(block);
                slot
            },
            None => {
                self.slots.push(Some(block));
                self.slots.len() - 1
            },
        };
        self.live = self.live + 1;
        proof {
            assert(self@.dom() =~= old(self)@.dom().insert(slot as nat));
        }
        slot
    }

    /// The block at `slot`.
    pub(crate) fn block(&self, slot: usize) -> (block: &Allocation<T>)
        requires
            self.wf(),
            self@.dom().contains(slot as nat),
        ensures
            block@ == self@[slot as nat],
            block.wf(),
    {
        self.slots[slot].as_ref().unwrap()
    }

    /// Counts one more owner of the block at `slot`.
    pub(crate) fn retain(&mut self, slot: usize)
        requires
            old(self).wf(),
            strong_live(old(self)@, slot as nat),
            old(self)@[slot as nat].strong < usize::MAX,
        ensures
            final(self).wf(),
            final(self)@ == after_clone(old(self)@, slot as nat),
    {
        self.slots[slot].as_mut().unwrap().retain();
        proof {
            assert(self@.dom() =~= old(self)@.dom());
        }
    }

    /// Counts one more observer of the block at `slot`.
    pub(crate) fn observe(&mut self, slot: usize)
        requires
            old(self).wf(),
            old(self)@.dom().contains(slot as nat),
            old(self)@[slot as nat].weak < usize::MAX,
        ensures
            final(self).wf(),
            final(self)@ == after_downgrade(old(self)@, slot as nat),
    {
        self.slots[slot].as_mut().unwrap().observe();
        proof {
            assert(self@.dom() =~= old(self)@.dom());
        }
    }

    /// Frees the block at `slot` if nothing refers to it any more.
    fn reclaim(&mut self, slot: usize)
        requires
            old(self)@.dom().contains(slot as nat),
            old(self).blocks_sound(Some(slot as int)),
            old(self).free_list_sound(),
            old(self).count_sound(),
        ensures
            final(self).wf(),
            final(self)@ == settle(old(self)@, slot as nat, old(self)@[slot as nat]),
    {
        let keep = self.slots[slot].as_ref().unwrap().is_referenced();
        if !keep {
            self.slots[slot] = None;
            self.free.push(slot);
            self.live = self.live - 1;
        }
        proof {
            if !keep {
                assert(self@.dom() =~= old(self)@.dom().remove(slot as nat));
            }
        }
    }

    /// Counts one owner less of the block at `slot`. The last owner takes the
    /// value with it: it is returned, and the block is freed unless an
    /// observer is left.
    pub(crate) fn release(&mut self, slot: usize) -> (gone: Option<T>)
        requires
            old(self).wf(),
            strong_live(old(self)@, slot as nat),
        ensures
            final(self).wf(),
            final(self)@ == after_drop(old(self)@, slot as nat),
            gone == (if old(self)@[slot as nat].strong == 1 {
                old(self)@[slot as nat].value
            } else {
                None
            }),
    {
        let gone = self.slots[slot].as_mut().unwrap().release();
        proof {
            assert(self@ =~= old(self)@.insert(slot as nat, old(self)@[slot as nat].released()));
        }
        self.reclaim(slot);
        gone
    }

    /// Counts one observer less of the block at `slot`, and frees the block
    /// if that was the last reference of either kind.
    pub(crate) fn unobserve(&mut self, slot: usize)
        requires
            old(self).wf(),
            weak_live(old(self)@, slot as nat),
        ensures
            final(self).wf(),
            final(self)@ == after_weak_drop(old(self)@, slot as nat),
    {
        self.slots[slot].as_mut().unwrap().unobserve();
        proof {
            assert(self@ =~= old(self)@.insert(slot as nat, old(self)@[slot as nat].unobserved()));
        }
        self.reclaim(slot);
    }

    /// Mutable access to the value in the block at `slot`.
    pub(crate) fn value_mut(&mut self, slot: usize) -> (value: &mut T)
        requires
            old(self).wf(),
            strong_live(old(self)@, slot as nat),
        ensures
            Some(*value) == old(self)@[slot as nat].value,
            final(self)@ == after_write(old(self)@, slot as nat, *final(value)),
            final(self).wf(),
    {
        let value = self.slots[slot].as_mut().unwrap().value_mut();
        proof {
            assert(after_borrow(*self)@.dom() =~= old(self)@.dom());
        }
        value
    }
}

impl<T> Default for Heap<T> {
    /// The empty heap.
    fn default() -> (heap: Self)
        ensures
            heap.wf(),
            heap@ == Map::<nat, Block<T>>::empty(),
    {
        Heap::new()
    }
}

} // verus!
