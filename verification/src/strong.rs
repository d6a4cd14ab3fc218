//! Owning handles.

use core::marker::PhantomData;
use vstd::prelude::*;
use crate::heap::Heap;
use crate::model::{
    after_clone, after_downgrade, after_drop, after_new, after_write, strong_live, Block,
};
use crate::weak::WeakHandle;

verus! {

/// An owning reference to a block of a [`Heap`]. The value in the block lives
/// as long as any owning handle to it does.
///
/// A handle cannot be copied: [`StrongHandle::clone`] counts the new owner,
/// and [`StrongHandle::drop`] consumes the handle and counts it out.
#[derive(Debug)]
pub struct StrongHandle<T> {
    slot: usize,
    marker: PhantomData<T>,
}

impl<T> StrongHandle<T> {
    /// The identifier of the block that the handle refers to.
    pub closed spec fn id(&self) -> nat {
        self.slot as nat
    }

    /// The handle's block exists in `m` and is owned, as it is for every
    /// handle that was obtained from the heap and not yet given back.
    pub open spec fn live_in(&self, m: Map<nat, Block<T>>) -> bool {
        strong_live(m, self.id())
    }

    /// The handle for an owner that the block at `slot` already counts.
    pub(crate) fn at(slot: usize) -> (handle: Self)
        ensures
            handle.id() == slot as nat,
    {
        StrongHandle { slot, marker: PhantomData }
    }

    /// Whether the handle's block exists in `heap` and is owned. A caller
    /// that cannot know this from the handle's history tests it here.
    pub fn is_live(&self, heap: &Heap<T>) -> (live: bool)
        requires
            heap.wf(),
        ensures
            live == self.live_in(heap@),
    {
        heap.in_use(self.slot) && heap.block(self.slot).strong_count() > 0
    }

    /// Places `value` in a new block and returns its first owner: the strong
    /// count is 1 and the weak count 0.
    pub fn new(value: T, heap: &mut Heap<T>) -> (handle: Self)
        requires
            old(heap).wf(),
        ensures
            final(heap).wf(),
            !old(heap)@.dom().contains(handle.id()),
            final(heap)@ == after_new(old(heap)@, handle.id(), value),
            handle.live_in(final(heap)@),
            final(heap)@[handle.id()].strong == 1,
            final(heap)@[handle.id()].weak == 0,
            final(heap)@[handle.id()].value == Some(value),
    {
        let slot = heap.allocate(value);
        StrongHandle { slot, marker: PhantomData }
    }

    /// A second owner of the same block. Afterwards both handles report the
    /// same strong count, one more than before.
    pub fn clone(&self, heap: &mut Heap<T>) -> (handle: Self)
        requires
            old(heap).wf(),
            self.live_in(old(heap)@),
            old(heap)@[self.id()].strong < usize::MAX,
        ensures
            final(heap).wf(),
            handle.id() == self.id(),
            final(heap)@ == after_clone(old(heap)@, self.id()),
            self.live_in(final(heap)@),
            final(heap)@[self.id()].strong == old(heap)@[self.id()].strong + 1,
            final(heap)@[handle.id()].strong == final(heap)@[self.id()].strong,
    {
        heap.retain(self.slot);
        StrongHandle { slot: self.slot, marker: PhantomData }
    }

    /// Gives the handle back. The strong count goes down by one; when it
    /// reaches zero the value is destroyed, and the block is freed unless an
    /// observer is left to see that the value is gone.
    ///
    /// Handles that the destroyed value holds are not given back with it. The
    /// last owner of such a value takes it out with
    /// [`StrongHandle::try_unwrap`] and gives them back one by one.
    pub fn drop(self, heap: &mut Heap<T>)
        requires
            old(heap).wf(),
            self.live_in(old(heap)@),
        ensures
            final(heap).wf(),
            final(heap)@ == after_drop(old(heap)@, self.id()),
            self.live_in(final(heap)@) <==> old(heap)@[self.id()].strong > 1,
    {
        let _ = heap.release(self.slot);
    }

    /// The number of owning handles to the block.
    pub fn strong_count(&self, heap: &Heap<T>) -> (n: usize)
        requires
            heap.wf(),
            self.live_in(heap@),
        ensures
            n == heap@[self.id()].strong,
            n >= 1,
    {
        heap.block(self.slot).strong_count()
    }

    /// The number of observing handles to the block.
    pub fn weak_count(&self, heap: &Heap<T>) -> (n: usize)
        requires
            heap.wf(),
            self.live_in(heap@),
        ensures
            n == heap@[self.id()].weak,
    {
        heap.block(self.slot).weak_count()
    }

    /// The value that the handle owns.
    pub fn get<'a>(&self, heap: &'a Heap<T>) -> (value: &'a T)
        requires
            heap.wf(),
            self.live_in(heap@),
        ensures
            heap@[self.id()].value == Some(*value),
    {
        heap.block(self.slot).value().unwrap()
    }

    /// Takes the value out if this handle is its only owner. Otherwise the
    /// handle comes back as it was and the heap is untouched.
    pub fn try_unwrap(self, heap: &mut Heap<T>) -> (result: Result<T, StrongHandle<T>>)
        requires
            old(heap).wf(),
            self.live_in(old(heap)@),
        ensures
            final(heap).wf(),
            match result {
                Ok(value) => {
                    &&& old(heap)@[self.id()].strong == 1
                    &&& old(heap)@[self.id()].value == Some(value)
                    &&& final(heap)@ == after_drop(old(heap)@, self.id())
                },
                Err(handle) => {
                    &&& old(heap)@[self.id()].strong != 1
                    &&& handle.id() == self.id()
                    &&& final(heap)@ == old(heap)@
                },
            },
    {
        if heap.block(self.slot).strong_count() == 1 {
            Ok(heap.release(self.slot).unwrap())
        } else {
            Err(self)
        }
    }

    /// Mutable access to the value, granted only to a handle that is the one
    /// reference of either kind: strong count 1 and weak count 0.
    pub fn get_mut<'a>(&mut self, heap: &'a mut Heap<T>) -> (result: Option<&'a mut T>)
        requires
            old(heap).wf(),
            old(self).live_in(old(heap)@),
        ensures
            final(self).id() == old(self).id(),
            final(heap).wf(),
            result is Some <==> old(heap)@[old(self).id()].strong == 1 && old(heap)@[old(
                self,
            ).id()].weak == 0,
            match result {
                Some(value) => {
                    &&& Some(*value) == old(heap)@[old(self).id()].value
                    &&& final(heap)@ == after_write(old(heap)@, old(self).id(), *final(value))
                },
                None => final(heap)@ == old(heap)@,
            },
    {
        let block = heap.block(self.slot);
        if block.strong_count() == 1 && block.weak_count() == 0 {
            Some(heap.value_mut(self.slot))
        } else {
            None
        }
    }

    /// Mutable access to the value through any owner. Holding the heap
    /// exclusively rules out a second access at the same time; the counts do
    /// not change. A payload that must also refuse overlapping long-lived
    /// access keeps its own record of it, as a `BorrowCell` does.
    pub fn value_mut<'a>(&self, heap: &'a mut Heap<T>) -> (value: &'a mut T)
        requires
            old(heap).wf(),
            self.live_in(old(heap)@),
        ensures
            final(heap).wf(),
            Some(*value) == old(heap)@[self.id()].value,
            final(heap)@ == after_write(old(heap)@, self.id(), *final(value)),
    {
        heap.value_mut(self.slot)
    }

    /// A new observer of the block. The strong count is not touched.
    pub fn downgrade(&self, heap: &mut Heap<T>) -> (weak: WeakHandle<T>)
        requires
            old(heap).wf(),
            self.live_in(old(heap)@),
            old(heap)@[self.id()].weak < usize::MAX,
        ensures
            final(heap).wf(),
            weak.target() == Some(self.id()),
            weak.valid_in(final(heap)@),
            final(heap)@ == after_downgrade(old(heap)@, self.id()),
            self.live_in(final(heap)@),
            final(heap)@[self.id()].strong == old(heap)@[self.id()].strong,
            final(heap)@[self.id()].weak == old(heap)@[self.id()].weak + 1,
    {
        heap.observe(self.slot);
        WeakHandle::observing(self.slot)
    }
}

} // verus!
