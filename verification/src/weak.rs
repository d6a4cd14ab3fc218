//! Observing handles.

use core::marker::PhantomData;
use vstd::prelude::*;
use crate::heap::Heap;
use crate::model::{after_clone, after_weak_drop, strong_live, weak_live, Block};
use crate::strong::StrongHandle;

verus! {

/// A non-owning reference to a block of a [`Heap`]. It keeps the block, but
/// not the value in it: the value is reached only through
/// [`WeakHandle::upgrade`], which fails once the last owner is gone.
///
/// An empty handle refers to no block at all and never upgrades.
#[derive(Debug)]
pub struct WeakHandle<T> {
    slot: Option<usize>,
    marker: PhantomData<T>,
}

impl<T> WeakHandle<T> {
    /// The identifier of the observed block, if the handle is not empty.
    pub closed spec fn target(&self) -> Option<nat> {
        match self.slot {
            Some(slot) => Some(slot as nat),
            None => None,
        }
    }

    /// The handle is empty, or its block exists in `m` and counts an
    /// observer, as it does for every handle that was obtained from the heap
    /// and not yet given back.
    pub open spec fn valid_in(&self, m: Map<nat, Block<T>>) -> bool {
        self.target() matches Some(id) ==> weak_live(m, id)
    }

    /// The handle observes a block of `m` whose value is still there.
    pub open spec fn upgradable_in(&self, m: Map<nat, Block<T>>) -> bool {
        self.target() matches Some(id) && strong_live(m, id)
    }

    /// The handle for an observer that the block at `slot` already counts.
    pub(crate) fn observing(slot: usize) -> (weak: Self)
        ensures
            weak.target() == Some(slot as nat),
    {
        WeakHandle { slot: Some(slot), marker: PhantomData }
    }

    /// A handle that observes nothing; upgrading it always fails.
    pub fn new_empty() -> (weak: Self)
        ensures
            weak.target() is None,
    {
        WeakHandle { slot: None, marker: PhantomData }
    }

    /// Whether the handle observes nothing.
    pub fn is_empty(&self) -> (empty: bool)
        ensures
            empty == (self.target() is None),
    {
        self.slot.is_none()
    }

    /// Whether the handle is empty or its block exists in `heap` and counts
    /// an observer. A caller that cannot know this from the handle's history
    /// tests it here.
    pub fn is_valid(&self, heap: &Heap<T>) -> (valid: bool)
        requires
            heap.wf(),
        ensures
            valid == self.valid_in(heap@),
    {
        match self.slot {
            Some(slot) => heap.in_use(slot) && heap.block(slot).weak_count() > 0,
            None => true,
        }
    }

    /// The number of owners of the observed block; 0 for an empty handle.
    pub fn strong_count(&self, heap: &Heap<T>) -> (n: usize)
        requires
            heap.wf(),
            self.valid_in(heap@),
        ensures
            n == (match self.target() {
                Some(id) => heap@[id].strong,
                None => 0,
            }),
            n > 0 <==> self.upgradable_in(heap@),
    {
        match self.slot {
            Some(slot) => heap.block(slot).strong_count(),
            None => 0,
        }
    }

    /// The number of observers of the observed block; 0 for an empty handle.
    pub fn weak_count(&self, heap: &Heap<T>) -> (n: usize)
        requires
            heap.wf(),
            self.valid_in(heap@),
        ensures
            n == (match self.target() {
                Some(id) => heap@[id].weak,
                None => 0,
            }),
    {
        match self.slot {
            Some(slot) => heap.block(slot).weak_count(),
            None => 0,
        }
    }

    /// A new owner of the observed block, if the value is still there: the
    /// strong count goes up by one. Fails, leaving the heap as it is, for an
    /// empty handle and once the strong count has reached zero.
    pub fn upgrade(&self, heap: &mut Heap<T>) -> (result: Option<StrongHandle<T>>)
        requires
            old(heap).wf(),
            self.valid_in(old(heap)@),
            self.target() matches Some(id) ==> old(heap)@[id].strong < usize::MAX,
        ensures
            final(heap).wf(),
            result is Some <==> self.upgradable_in(old(heap)@),
            match result {
                Some(handle) => {
                    &&& self.target() == Some(handle.id())
                    &&& handle.live_in(final(heap)@)
                    &&& final(heap)@ == after_clone(old(heap)@, handle.id())
                    &&& final(heap)@[handle.id()].strong == old(heap)@[handle.id()].strong + 1
                },
                None => final(heap)@ == old(heap)@,
            },
            self.valid_in(final(heap)@),
    {
        match self.slot {
            Some(slot) => {
                if heap.block(slot).strong_count() > 0 {
                    heap.retain(slot);
                    Some(StrongHandle::at(slot))
                } else {
                    None
                }
            },
            None => None,
        }
    }

    /// Gives the handle back. The weak count goes down by one, and the block
    /// is freed if no reference of either kind is left. Nothing happens for
    /// an empty handle.
    pub fn drop(self, heap: &mut Heap<T>)
        requires
            old(heap).wf(),
            self.valid_in(old(heap)@),
        ensures
            final(heap).wf(),
            final(heap)@ == (match self.target() {
                Some(id) => after_weak_drop(old(heap)@, id),
                None => old(heap)@,
            }),
    {
        match self.slot {
            Some(slot) => {
                heap.unobserve(slot);
            },
            None => {},
        }
    }
}

impl<T> Default for WeakHandle<T> {
    /// The empty handle.
    fn default() -> (weak: Self)
        ensures
            weak.target() is None,
    {
        WeakHandle::new_empty()
    }
}

} // verus!
