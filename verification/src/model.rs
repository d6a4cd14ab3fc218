//! Mathematical model of the reference-counted heap.
//!
//! A heap is a map from block identifiers to [`Block`]s. Every operation of the
//! handle types is described here as a function from one such map to the next,
//! and the executable code is proved to follow these functions exactly.

use vstd::prelude::*;

verus! {

/// The abstract content of one allocation: the payload, if it has not been
/// destroyed yet, and the two reference counts.
pub struct Block<T> {
    pub value: Option<T>,
    pub strong: nat,
    pub weak: nat,
}

impl<T> Block<T> {
    /// The payload is present exactly while at least one owner is left.
    pub open spec fn valid(self) -> bool {
        (self.value is Some) <==> self.strong > 0
    }

    /// Some handle, owning or observing, still refers to the block.
    pub open spec fn referenced(self) -> bool {
        self.strong + self.weak > 0
    }

    /// The block of a newly placed value: one owner, no observer.
    pub open spec fn fresh(value: T) -> Block<T> {
        Block { value: Some(value), strong: 1, weak: 0 }
    }

    /// One more owner.
    pub open spec fn retained(self) -> Block<T> {
        Block { strong: self.strong + 1, ..self }
    }

    /// One owner less; the payload goes with the last owner.
    pub open spec fn released(self) -> Block<T> {
        if self.strong <= 1 {
            Block { value: None, strong: 0, weak: self.weak }
        } else {
            Block { strong: (self.strong - 1) as nat, ..self }
        }
    }

    /// One more observer.
    pub open spec fn observed(self) -> Block<T> {
        Block { weak: self.weak + 1, ..self }
    }

    /// One observer less.
    pub open spec fn unobserved(self) -> Block<T> {
        Block { weak: (self.weak - 1) as nat, ..self }
    }

    /// The same block holding another payload.
    pub open spec fn holding(self, value: T) -> Block<T> {
        Block { value: Some(value), ..self }
    }
}

/// Every block of the heap is valid and still referenced.
pub open spec fn valid_heap<T>(m: Map<nat, Block<T>>) -> bool {
    forall|id: nat| #[trigger] m.dom().contains(id) ==> m[id].valid() && m[id].referenced()
}

/// Block `id` exists and has an owner, so its payload is present.
pub open spec fn strong_live<T>(m: Map<nat, Block<T>>, id: nat) -> bool {
    m.dom().contains(id) && m[id].strong > 0
}

/// Block `id` exists and has an observer.
pub open spec fn weak_live<T>(m: Map<nat, Block<T>>, id: nat) -> bool {
    m.dom().contains(id) && m[id].weak > 0
}

/// Stores `b` as block `id`, or frees the block when nothing refers to it.
pub open spec fn settle<T>(m: Map<nat, Block<T>>, id: nat, b: Block<T>) -> Map<nat, Block<T>> {
    if b.referenced() {
        m.insert(id, b)
    } else {
        m.remove(id)
    }
}

/// The heap after a value was placed in the unused block `id`.
pub open spec fn after_new<T>(m: Map<nat, Block<T>>, id: nat, value: T) -> Map<nat, Block<T>> {
    m.insert(id, Block::fresh(value))
}

/// The heap after an owning handle to block `id` was cloned, or an observing
/// handle was upgraded.
pub open spec fn after_clone<T>(m: Map<nat, Block<T>>, id: nat) -> Map<nat, Block<T>> {
    m.insert(id, m[id].retained())
}

/// The heap after an owning handle to block `id` was dropped or unwrapped.
pub open spec fn after_drop<T>(m: Map<nat, Block<T>>, id: nat) -> Map<nat, Block<T>> {
    settle(m, id, m[id].released())
}

/// The heap after an observing handle to block `id` was made.
pub open spec fn after_downgrade<T>(m: Map<nat, Block<T>>, id: nat) -> Map<nat, Block<T>> {
    m.insert(id, m[id].observed())
}

/// The heap after an observing handle to block `id` was dropped.
pub open spec fn after_weak_drop<T>(m: Map<nat, Block<T>>, id: nat) -> Map<nat, Block<T>> {
    settle(m, id, m[id].unobserved())
}

/// The heap after the payload of block `id` was overwritten with `value`.
pub open spec fn after_write<T>(m: Map<nat, Block<T>>, id: nat, value: T) -> Map<nat, Block<T>> {
    m.insert(id, m[id].holding(value))
}

/// The heap after `n` owning handles to block `id` were dropped, one by one.
pub open spec fn after_drops<T>(m: Map<nat, Block<T>>, id: nat, n: nat) -> Map<nat, Block<T>>
    decreases n,
{
    if n == 0 {
        m
    } else {
        after_drops(after_drop(m, id), id, (n - 1) as nat)
    }
}

/// The heap after `n` observing handles to block `id` were dropped, one by one.
pub open spec fn after_weak_drops<T>(m: Map<nat, Block<T>>, id: nat, n: nat) -> Map<nat, Block<T>>
    decreases n,
{
    if n == 0 {
        m
    } else {
        after_weak_drops(after_weak_drop(m, id), id, (n - 1) as nat)
    }
}

} // verus!
