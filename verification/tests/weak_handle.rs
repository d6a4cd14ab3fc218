use ownership_kernel::{Heap, StrongHandle, WeakHandle};

#[test]
fn downgrade_counts_an_observer_and_no_owner() {
    let mut heap = Heap::new();
    let owner = StrongHandle::new(String::from("Hello, Weak!"), &mut heap);
    let observer = owner.downgrade(&mut heap);
    assert_eq!(owner.strong_count(&heap), 1);
    assert_eq!(owner.weak_count(&heap), 1);
    assert_eq!(observer.strong_count(&heap), 1);
    assert_eq!(observer.weak_count(&heap), 1);
    assert!(!observer.is_empty());
    let second = owner.downgrade(&mut heap);
    assert_eq!(owner.strong_count(&heap), 1);
    assert_eq!(owner.weak_count(&heap), 2);
    second.drop(&mut heap);
    assert_eq!(owner.weak_count(&heap), 1);
    observer.drop(&mut heap);
    assert_eq!(owner.weak_count(&heap), 0);
    assert_eq!(owner.strong_count(&heap), 1);
}

#[test]
fn upgrade_while_an_owner_exists_adds_one_owner() {
    let mut heap = Heap::new();
    let owner = StrongHandle::new(7, &mut heap);
    let observer = owner.downgrade(&mut heap);
    let upgraded = match observer.upgrade(&mut heap) {
        Some(handle) => handle,
        None => panic!("the value is owned, yet the upgrade failed"),
    };
    assert_eq!(owner.strong_count(&heap), 2);
    assert_eq!(upgraded.strong_count(&heap), 2);
    assert_eq!(owner.weak_count(&heap), 1);
    assert_eq!(*upgraded.get(&heap), 7);
    *upgraded.value_mut(&mut heap) = 8;
    assert_eq!(*owner.get(&heap), 8);
    upgraded.drop(&mut heap);
    assert_eq!(owner.strong_count(&heap), 1);
}

#[test]
fn upgrade_after_all_owners_are_dropped_returns_nothing() {
    let mut heap = Heap::new();
    let first = StrongHandle::new(String::from("gone soon"), &mut heap);
    let second = first.clone(&mut heap);
    let observer = first.downgrade(&mut heap);
    first.drop(&mut heap);
    let still = observer.upgrade(&mut heap);
    assert!(still.is_some());
    still.unwrap().drop(&mut heap);
    second.drop(&mut heap);
    assert_eq!(observer.strong_count(&heap), 0);
    assert_eq!(observer.weak_count(&heap), 1);
    assert!(observer.upgrade(&mut heap).is_none());
    assert!(observer.upgrade(&mut heap).is_none());
    assert_eq!(observer.strong_count(&heap), 0);
    assert_eq!(heap.block_count(), 1);
    observer.drop(&mut heap);
    assert_eq!(heap.block_count(), 0);
}

#[test]
fn an_upgraded_handle_keeps_the_value_alive() {
    let mut heap = Heap::new();
    let owner = StrongHandle::new(3, &mut heap);
    let observer = owner.downgrade(&mut heap);
    let upgraded = observer.upgrade(&mut heap).unwrap();
    owner.drop(&mut heap);
    assert_eq!(upgraded.strong_count(&heap), 1);
    assert_eq!(*upgraded.get(&heap), 3);
    upgraded.drop(&mut heap);
    assert!(observer.upgrade(&mut heap).is_none());
    observer.drop(&mut heap);
}

#[test]
fn an_empty_handle_never_upgrades() {
    let mut heap: Heap<i32> = Heap::new();
    let empty = WeakHandle::new_empty();
    assert!(empty.is_empty());
    assert_eq!(empty.strong_count(&heap), 0);
    assert_eq!(empty.weak_count(&heap), 0);
    assert!(empty.upgrade(&mut heap).is_none());
    let owner = StrongHandle::new(1, &mut heap);
    assert!(empty.upgrade(&mut heap).is_none());
    assert_eq!(owner.strong_count(&heap), 1);
    assert_eq!(owner.weak_count(&heap), 0);
    empty.drop(&mut heap);
    assert_eq!(heap.block_count(), 1);
    assert_eq!(*owner.get(&heap), 1);
}

#[test]
fn the_default_handle_is_empty() {
    let mut heap: Heap<u8> = Heap::new();
    let empty: WeakHandle<u8> = WeakHandle::default();
    assert!(empty.is_empty());
    assert!(empty.upgrade(&mut heap).is_none());
}

#[test]
fn the_last_observer_frees_a_block_without_owner() {
    let mut heap = Heap::new();
    let owner = StrongHandle::new(9, &mut heap);
    let first = owner.downgrade(&mut heap);
    let second = owner.downgrade(&mut heap);
    owner.drop(&mut heap);
    assert_eq!(heap.block_count(), 1);
    assert_eq!(first.weak_count(&heap), 2);
    first.drop(&mut heap);
    assert_eq!(heap.block_count(), 1);
    assert_eq!(second.weak_count(&heap), 1);
    second.drop(&mut heap);
    assert_eq!(heap.block_count(), 0);
}

#[test]
fn dropping_an_observer_of_an_owned_block_keeps_the_value() {
    let mut heap = Heap::new();
    let owner = StrongHandle::new(9, &mut heap);
    let observer = owner.downgrade(&mut heap);
    observer.drop(&mut heap);
    assert_eq!(heap.block_count(), 1);
    assert_eq!(*owner.get(&heap), 9);
    assert_eq!(owner.strong_count(&heap), 1);
    assert_eq!(owner.weak_count(&heap), 0);
}

#[test]
fn observers_of_different_blocks_do_not_interfere() {
    let mut heap = Heap::new();
    let a = StrongHandle::new(1, &mut heap);
    let b = StrongHandle::new(2, &mut heap);
    let wa = a.downgrade(&mut heap);
    let wb = b.downgrade(&mut heap);
    a.drop(&mut heap);
    assert!(wa.upgrade(&mut heap).is_none());
    let again = wb.upgrade(&mut heap).unwrap();
    assert_eq!(*again.get(&heap), 2);
    assert_eq!(b.strong_count(&heap), 2);
    again.drop(&mut heap);
    wa.drop(&mut heap);
    let c = StrongHandle::new(3, &mut heap);
    assert_eq!(*c.get(&heap), 3);
    assert_eq!(wb.strong_count(&heap), 1);
    assert_eq!(*b.get(&heap), 2);
}

#[test]
fn an_empty_handle_is_valid_in_every_heap() {
    let heap: Heap<u8> = Heap::new();
    let empty: WeakHandle<u8> = WeakHandle::new_empty();
    assert!(empty.is_valid(&heap));
}
