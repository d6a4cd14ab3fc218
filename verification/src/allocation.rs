//! One allocation block: a payload and its two reference counts.

use vstd::prelude::*;
use crate::model::Block;

verus! {

/// A block holding a value together with the number of owning and of
/// observing handles that refer to it.
///
/// The value is present exactly while the strong count is positive. Blocks
/// stay inside the crate: the heap holds them, and the counts change only
/// where a handle is made or given back.
#[derive(Debug)]
pub(crate) struct Allocation<T> {
    value: Option<T>,
    strong_count: usize,
    weak_count: usize,
}

impl<T> View for Allocation<T> {
    type V = Block<T>;

    closed spec fn view(&self) -> Block<T> {
        Block {
            value: self.value,
            strong: self.strong_count as nat,
            weak: self.weak_count as nat,
        }
    }
}

impl<T> Allocation<T> {
    /// The block's invariant: the value is present if and only if an owner is left.
    pub(crate) open spec fn wf(&self) -> bool {
        self@.valid()
    }

    /// A block for `value` with one owner and no observer.
    pub(crate) fn new(value: T) -> (block: Self)
        ensures
            block.wf(),
            block@ == Block::fresh(value),
    {
        Allocation { value: Some(value), strong_count: 1, weak_count: 0 }
    }

    /// The number of owning handles.
    pub(crate) fn strong_count(&self) -> (n: usize)
        ensures
            n == self@.strong,
    {
        self.strong_count
    }

    /// The number of observing handles.
    pub(crate) fn weak_count(&self) -> (n: usize)
        ensures
            n == self@.weak,
    {
        self.weak_count
    }

    /// Whether any handle, owning or observing, is left.
    pub(crate) fn is_referenced(&self) -> (referenced: bool)
        ensures
            referenced == self@.referenced(),
    {
        self.strong_count > 0 || self.weak_count > 0
    }

    /// The value, while it is present.
    pub(crate) fn value(&self) -> (value: Option<&T>)
        ensures
            match value {
                Some(v) => self@.value == Some(*v),
                None => self@.value is None,
            },
    {
        self.value.as_ref()
    }

    /// Mutable access to the value, while it is present. The counts stay as
    /// they are, and whatever is written is what the block holds afterwards.
    pub(crate) fn value_mut(&mut self) -> (value: &mut T)
        requires
            old(self).wf(),
            old(self)@.strong > 0,
        ensures
            Some(*value) == old(self)@.value,
            final(self)@ == old(self)@.holding(*final(value)),
            final(self).wf(),
    {
        self.value.as_mut().unwrap()
    }

    /// Counts one more owner.
    pub(crate) fn retain(&mut self)
        requires
            old(self).wf(),
            0 < old(self)@.strong < usize::MAX,
        ensures
            final(self).wf(),
            final(self)@ == old(self)@.retained(),
    {
        self.strong_count = self.strong_count + 1;
    }

    /// Counts one owner less. With the last owner the value leaves the block
    /// and is handed to the caller; otherwise nothing is returned and the
    /// value stays.
    pub(crate) fn release(&mut self) -> (gone: Option<T>)
        requires
            old(self).wf(),
            old(self)@.strong > 0,
        ensures
            final(self).wf(),
            final(self)@ == old(self)@.released(),
            gone == (if old(self)@.strong == 1 {
                old(self)@.value
            } else {
                None
            }),
    {
        self.strong_count = self.strong_count - 1;
        if self.strong_count == 0 {
            self.value.take()
        } else {
            None
        }
    }

    /// Counts one more observer.
    pub(crate) fn observe(&mut self)
        requires
            old(self).wf(),
            old(self)@.weak < usize::MAX,
        ensures
            final(self).wf(),
            final(self)@ == old(self)@.observed(),
    {
        self.weak_count = self.weak_count + 1;
    }

    /// Counts one observer less.
    pub(crate) fn unobserve(&mut self)
        requires
            old(self).wf(),
            old(self)@.weak > 0,
        ensures
            final(self).wf(),
            final(self)@ == old(self)@.unobserved(),
    {
        self.weak_count = self.weak_count - 1;
    }
}

} // verus!
