use ownership_kernel::{BorrowCell, BorrowConflict, BorrowState, Heap, StrongHandle};

#[test]
fn a_new_cell_is_unborrowed() {
    let cell = BorrowCell::new(42);
    assert_eq!(cell.borrow_state(), BorrowState::Unborrowed);
    assert_eq!(cell.into_inner(), 42);
}

#[test]
fn read_write_read() {
    let mut cell = BorrowCell::new(42);
    let reader = cell.borrow();
    assert_eq!(*reader.get(&cell), 42);
    reader.release(&mut cell);
    let mut writer = cell.borrow_mut();
    *writer.get_mut(&mut cell) = 100;
    assert_eq!(*writer.get(&cell), 100);
    writer.release(&mut cell);
    let reader = cell.borrow();
    assert_eq!(*reader.get(&cell), 100);
    reader.release(&mut cell);
    assert_eq!(cell.borrow_state(), BorrowState::Unborrowed);
}

#[test]
fn two_shared_borrows_at_the_same_time_both_succeed() {
    let mut cell = BorrowCell::new(String::from("test"));
    let first = cell.try_borrow();
    assert!(first.is_ok());
    assert_eq!(cell.borrow_state(), BorrowState::Shared(1));
    let second = cell.try_borrow();
    assert!(second.is_ok());
    assert_eq!(cell.borrow_state(), BorrowState::Shared(2));
    let first = first.unwrap();
    let second = second.unwrap();
    assert_eq!(first.get(&cell), "test");
    assert_eq!(second.get(&cell), "test");
    first.release(&mut cell);
    second.release(&mut cell);
}

#[test]
fn exclusive_borrow_fails_while_a_shared_guard_is_alive() {
    let mut cell = BorrowCell::new(1);
    let first = cell.try_borrow().unwrap();
    assert_eq!(cell.try_borrow_mut().err(), Some(BorrowConflict));
    assert_eq!(cell.borrow_state(), BorrowState::Shared(1));
    let second = cell.try_borrow().unwrap();
    assert_eq!(cell.try_borrow_mut().err(), Some(BorrowConflict));
    assert_eq!(cell.borrow_state(), BorrowState::Shared(2));
    first.release(&mut cell);
    assert!(cell.try_borrow_mut().is_err());
    second.release(&mut cell);
}

#[test]
fn shared_borrow_fails_while_the_exclusive_guard_is_alive() {
    let mut cell = BorrowCell::new(1);
    let writer = cell.try_borrow_mut().unwrap();
    assert_eq!(cell.borrow_state(), BorrowState::Exclusive);
    assert_eq!(cell.try_borrow().err(), Some(BorrowConflict));
    assert_eq!(cell.borrow_state(), BorrowState::Exclusive);
    assert_eq!(*writer.get(&cell), 1);
    writer.release(&mut cell);
    assert!(cell.try_borrow().is_ok());
}

#[test]
fn a_second_exclusive_borrow_fails() {
    let mut cell = BorrowCell::new(1);
    let writer = cell.try_borrow_mut().unwrap();
    assert_eq!(cell.try_borrow_mut().err(), Some(BorrowConflict));
    assert_eq!(cell.borrow_state(), BorrowState::Exclusive);
    writer.release(&mut cell);
    assert_eq!(cell.borrow_state(), BorrowState::Unborrowed);
}

#[test]
fn exclusive_borrow_succeeds_after_all_guards_are_released() {
    let mut cell = BorrowCell::new(5);
    let a = cell.try_borrow().unwrap();
    let b = cell.try_borrow().unwrap();
    let c = cell.try_borrow().unwrap();
    assert_eq!(cell.borrow_state(), BorrowState::Shared(3));
    b.release(&mut cell);
    assert_eq!(cell.borrow_state(), BorrowState::Shared(2));
    assert!(cell.try_borrow_mut().is_err());
    a.release(&mut cell);
    assert_eq!(cell.borrow_state(), BorrowState::Shared(1));
    assert!(cell.try_borrow_mut().is_err());
    c.release(&mut cell);
    assert_eq!(cell.borrow_state(), BorrowState::Unborrowed);
    let writer = cell.try_borrow_mut();
    assert!(writer.is_ok());
    let mut writer = writer.unwrap();
    *writer.get_mut(&mut cell) += 1;
    writer.release(&mut cell);
    assert_eq!(cell.into_inner(), 6);
}

#[test]
fn try_borrow_on_a_free_cell() {
    let mut cell = BorrowCell::new(42);
    let shared = cell.try_borrow();
    assert!(shared.is_ok());
    shared.unwrap().release(&mut cell);
    let exclusive = cell.try_borrow_mut();
    assert!(exclusive.is_ok());
    exclusive.unwrap().release(&mut cell);
}

#[test]
fn a_refused_request_changes_nothing() {
    let mut cell = BorrowCell::new(vec![1, 2]);
    let mut writer = cell.borrow_mut();
    writer.get_mut(&mut cell).push(3);
    assert!(cell.try_borrow().is_err());
    assert!(cell.try_borrow_mut().is_err());
    assert_eq!(cell.borrow_state(), BorrowState::Exclusive);
    assert_eq!(writer.get(&cell), &vec![1, 2, 3]);
    writer.release(&mut cell);
    assert_eq!(cell.into_inner(), vec![1, 2, 3]);
}

#[test]
fn state_transitions_for_shared_access() {
    assert_eq!(BorrowState::Unborrowed.acquire_shared(), Ok(BorrowState::Shared(1)));
    assert_eq!(BorrowState::Shared(1).acquire_shared(), Ok(BorrowState::Shared(2)));
    assert_eq!(BorrowState::Shared(41).acquire_shared(), Ok(BorrowState::Shared(42)));
    assert_eq!(BorrowState::Exclusive.acquire_shared(), Err(BorrowConflict));
}

#[test]
fn state_transitions_for_exclusive_access() {
    assert_eq!(BorrowState::Unborrowed.acquire_exclusive(), Ok(BorrowState::Exclusive));
    assert_eq!(BorrowState::Shared(1).acquire_exclusive(), Err(BorrowConflict));
    assert_eq!(BorrowState::Shared(7).acquire_exclusive(), Err(BorrowConflict));
    assert_eq!(BorrowState::Exclusive.acquire_exclusive(), Err(BorrowConflict));
}

#[test]
fn state_transitions_for_release() {
    assert_eq!(BorrowState::Shared(3).release_shared(), BorrowState::Shared(2));
    assert_eq!(BorrowState::Shared(2).release_shared(), BorrowState::Shared(1));
    assert_eq!(BorrowState::Shared(1).release_shared(), BorrowState::Unborrowed);
}

#[test]
fn a_cell_shared_through_three_owners() {
    let mut heap = Heap::new();
    let counter = StrongHandle::new(BorrowCell::new(0), &mut heap);
    let counter1 = counter.clone(&mut heap);
    let counter2 = counter.clone(&mut heap);
    let counter3 = counter.clone(&mut heap);
    for handle in [&counter1, &counter2, &counter3, &counter3] {
        let cell = handle.value_mut(&mut heap);
        let mut writer = cell.borrow_mut();
        *writer.get_mut(cell) += 1;
        writer.release(cell);
    }
    let writer = counter.value_mut(&mut heap).borrow_mut();
    assert!(counter2.value_mut(&mut heap).try_borrow().is_err());
    assert!(counter3.value_mut(&mut heap).try_borrow_mut().is_err());
    writer.release(counter1.value_mut(&mut heap));
    let cell = counter.value_mut(&mut heap);
    let reader = cell.borrow();
    assert_eq!(*reader.get(cell), 4);
    reader.release(cell);
    assert_eq!(counter.strong_count(&heap), 4);
    assert_eq!(counter.get(&heap).borrow_state(), BorrowState::Unborrowed);
}
