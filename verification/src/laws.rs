//! Laws that relate the operations to one another, proved over the model
//! that the operations' contracts are stated in.

use vstd::prelude::*;
use crate::borrow_cell::BorrowState;
use crate::model::{
    after_clone, after_downgrade, after_drop, after_drops, after_new, after_weak_drop,
    after_weak_drops, after_write, strong_live, valid_heap, weak_live, Block,
};
use crate::strong::StrongHandle;
use crate::weak::WeakHandle;

verus! {

/// Every operation on a valid heap leaves a valid heap: in each block the
/// value is present exactly while the strong count is positive, and a block
/// exists exactly while one of its counts is positive.
pub proof fn law_operations_keep_validity<T>(m: Map<nat, Block<T>>, id: nat, value: T)
    requires
        valid_heap(m),
    ensures
        !m.dom().contains(id) ==> valid_heap(after_new(m, id, value)),
        strong_live(m, id) ==> valid_heap(after_clone(m, id)),
        strong_live(m, id) ==> valid_heap(after_drop(m, id)),
        strong_live(m, id) ==> valid_heap(after_downgrade(m, id)),
        strong_live(m, id) ==> valid_heap(after_write(m, id, value)),
        weak_live(m, id) ==> valid_heap(after_weak_drop(m, id)),
{
}

/// Dropping owners one by one takes the strong count down by exactly one
/// each time and touches nothing else: while an owner is left, the value and
/// the weak count are as they were, and the other blocks do not change.
pub proof fn law_drops_count_down<T>(m: Map<nat, Block<T>>, id: nat, k: nat)
    requires
        valid_heap(m),
        strong_live(m, id),
        k < m[id].strong,
    ensures
        valid_heap(after_drops(m, id, k)),
        strong_live(after_drops(m, id, k), id),
        after_drops(m, id, k)[id].strong == m[id].strong - k,
        after_drops(m, id, k)[id].value == m[id].value,
        after_drops(m, id, k)[id].weak == m[id].weak,
        after_drops(m, id, k).remove(id) == m.remove(id),
    decreases k,
{
    if k > 0 {
        let next = after_drop(m, id);
        law_drops_count_down(next, id, (k - 1) as nat);
    }
}

/// The value is destroyed exactly once, with the last owner and not before:
/// after as many drops as there were owners the value is gone, the block is
/// freed if nobody observes it and is kept, empty, if somebody does.
pub proof fn law_last_drop_destroys_value<T>(m: Map<nat, Block<T>>, id: nat)
    requires
        valid_heap(m),
        strong_live(m, id),
    ensures
        ({
            let before_last = after_drops(m, id, (m[id].strong - 1) as nat);
            let emptied = after_drops(m, id, m[id].strong);
            &&& before_last[id].strong == 1
            &&& before_last[id].value == m[id].value
            &&& emptied == after_drop(before_last, id)
            &&& valid_heap(emptied)
            &&& !strong_live(emptied, id)
            &&& emptied.dom().contains(id) <==> m[id].weak > 0
            &&& emptied.dom().contains(id) ==> emptied[id] == (Block::<T> {
                value: None,
                strong: 0,
                weak: m[id].weak,
            })
        }),
{
    let n = m[id].strong;
    let before_last = after_drops(m, id, (n - 1) as nat);
    law_drops_count_down(m, id, (n - 1) as nat);
    lemma_drops_split(m, id, (n - 1) as nat);
}

/// Dropping `k + 1` owners is dropping `k` owners and then one more.
proof fn lemma_drops_split<T>(m: Map<nat, Block<T>>, id: nat, k: nat)
    ensures
        after_drops(m, id, k + 1) == after_drop(after_drops(m, id, k), id),
    decreases k,
{
    if k > 0 {
        lemma_drops_split(after_drop(m, id), id, (k - 1) as nat);
    } else {
        assert(after_drops(m, id, 1) == after_drops(after_drop(m, id), id, 0));
    }
}

/// A block lives exactly as long as a reference of either kind: dropping
/// observers one by one takes the weak count down by one each time, and the
/// block is freed with the last observer if no owner is left. Nothing else
/// changes.
pub proof fn law_block_is_freed_with_its_last_reference<T>(m: Map<nat, Block<T>>, id: nat, k: nat)
    requires
        valid_heap(m),
        weak_live(m, id),
        k <= m[id].weak,
    ensures
        valid_heap(after_weak_drops(m, id, k)),
        after_weak_drops(m, id, k).dom().contains(id) <==> m[id].strong > 0 || k < m[id].weak,
        after_weak_drops(m, id, k).dom().contains(id) ==> after_weak_drops(m, id, k)[id] == (Block {
            weak: (m[id].weak - k) as nat,
            ..m[id]
        }),
        after_weak_drops(m, id, k).remove(id) == m.remove(id),
    decreases k,
{
    if k > 0 {
        let next = after_weak_drop(m, id);
        if weak_live(next, id) {
            law_block_is_freed_with_its_last_reference(next, id, (k - 1) as nat);
        } else {
            assert(after_weak_drops(next, id, 0) == next);
        }
        assert(next.remove(id) =~= m.remove(id));
    }
}

/// Cloning an owner and dropping an owner undo each other, and so do making
/// an observer and dropping one.
pub proof fn law_drop_undoes_clone<T>(m: Map<nat, Block<T>>, id: nat)
    requires
        valid_heap(m),
        strong_live(m, id),
    ensures
        after_drop(after_clone(m, id), id) == m,
        after_weak_drop(after_downgrade(m, id), id) == m,
{
    assert(after_drop(after_clone(m, id), id) =~= m);
    assert(after_weak_drop(after_downgrade(m, id), id) =~= m);
}

/// An observer made by `downgrade` outlives the owners, and once every owner
/// has been dropped it can no longer be upgraded.
pub proof fn law_upgrade_fails_once_owners_are_gone<T>(
    m: Map<nat, Block<T>>,
    owner: StrongHandle<T>,
    observer: WeakHandle<T>,
)
    requires
        valid_heap(m),
        owner.live_in(m),
        observer.target() == Some(owner.id()),
    ensures
        ({
            let observed = after_downgrade(m, owner.id());
            let emptied = after_drops(observed, owner.id(), observed[owner.id()].strong);
            &&& observer.valid_in(observed)
            &&& observer.valid_in(emptied)
            &&& !observer.upgradable_in(emptied)
            &&& emptied[owner.id()].value is None
        }),
{
    let id = owner.id();
    let observed = after_downgrade(m, id);
    law_last_drop_destroys_value(observed, id);
}

/// An observer made by `downgrade` can be upgraded while an owner exists,
/// and the upgrade adds exactly one to the strong count.
pub proof fn law_upgrade_succeeds_while_owned<T>(
    m: Map<nat, Block<T>>,
    owner: StrongHandle<T>,
    observer: WeakHandle<T>,
)
    requires
        valid_heap(m),
        owner.live_in(m),
        observer.target() == Some(owner.id()),
    ensures
        ({
            let observed = after_downgrade(m, owner.id());
            let upgraded = after_clone(observed, owner.id());
            &&& observed[owner.id()].strong == m[owner.id()].strong
            &&& observer.upgradable_in(observed)
            &&& upgraded[owner.id()].strong == m[owner.id()].strong + 1
            &&& upgraded[owner.id()].value == m[owner.id()].value
        }),
{
}

/// When the last owner of an observed block is dropped, the observer stays
/// valid but can no longer be upgraded, and an owner of any other block
/// finds its block exactly as it was.
pub proof fn law_last_drop_leaves_other_blocks<T>(
    m: Map<nat, Block<T>>,
    owner: StrongHandle<T>,
    observer: WeakHandle<T>,
    bystander: StrongHandle<T>,
)
    requires
        valid_heap(m),
        owner.live_in(m),
        m[owner.id()].strong == 1,
        observer.target() == Some(owner.id()),
        observer.valid_in(m),
        bystander.live_in(m),
        bystander.id() != owner.id(),
    ensures
        ({
            let emptied = after_drop(m, owner.id());
            &&& valid_heap(emptied)
            &&& observer.valid_in(emptied)
            &&& !observer.upgradable_in(emptied)
            &&& bystander.live_in(emptied)
            &&& emptied[bystander.id()] == m[bystander.id()]
        }),
{
}

/// Shared guards do not exclude one another: after one was handed out the
/// next request for shared access is granted too, and two requests on an
/// unborrowed cell leave it shared twice.
pub proof fn law_shared_guards_coexist(state: BorrowState)
    requires
        state.wf(),
        state.has_room(),
        state.admits_shared(),
    ensures
        state.share().wf(),
        state.share().admits_shared(),
        state.share().readers() == state.readers() + 1,
        BorrowState::Unborrowed.share().share() == BorrowState::Shared(2),
{
}

/// While any shared guard is outstanding, exclusive access is refused; while
/// the exclusive guard is outstanding, every access is refused.
pub proof fn law_conflicting_access_is_refused(state: BorrowState)
    requires
        state.wf(),
    ensures
        state is Shared ==> !state.admits_exclusive(),
        state is Exclusive ==> !state.admits_shared() && !state.admits_exclusive(),
{
}

/// Handing out `k` shared guards takes an unborrowed cell to `Shared(k)`.
pub proof fn law_shared_guards_are_counted(k: nat)
    requires
        0 < k <= usize::MAX,
    ensures
        BorrowState::Unborrowed.share_times(k) == BorrowState::Shared(k as usize),
{
    lemma_share_times_from(BorrowState::Unborrowed, k);
}

proof fn lemma_share_times_from(state: BorrowState, k: nat)
    requires
        state.admits_shared(),
        state.readers() + k <= usize::MAX,
        0 < k,
    ensures
        state.share_times(k) == BorrowState::Shared((state.readers() + k) as usize),
    decreases k,
{
    if k > 1 {
        lemma_share_times_from(state.share(), (k - 1) as nat);
    } else {
        assert(state.share().share_times(0) == state.share());
    }
}

/// Once every guard has come back, exclusive access is granted again: `k`
/// shared guards handed out and `k` handed back leave the cell unborrowed.
pub proof fn law_exclusive_granted_after_all_released(k: nat)
    requires
        k <= usize::MAX,
    ensures
        BorrowState::Unborrowed.share_times(k).unshare_times(k) == BorrowState::Unborrowed,
        BorrowState::Unborrowed.share_times(k).unshare_times(k).admits_exclusive(),
{
    if k > 0 {
        law_shared_guards_are_counted(k);
        lemma_unshare_all(k);
    }
}

proof fn lemma_unshare_all(k: nat)
    requires
        0 < k <= usize::MAX,
    ensures
        BorrowState::Shared(k as usize).unshare_times(k) == BorrowState::Unborrowed,
    decreases k,
{
    if k > 1 {
        lemma_unshare_all((k - 1) as nat);
    } else {
        assert(BorrowState::Unborrowed.unshare_times(0) == BorrowState::Unborrowed);
    }
}

} // verus!
