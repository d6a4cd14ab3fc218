//! A cell that checks, while the program runs, that its value is lent either
//! to any number of readers or to one writer, never both.

use core::marker::PhantomData;
use vstd::prelude::*;

verus! {

/// How a [`BorrowCell`] is lent out at the moment.
#[derive(Clone, Copy, Debug, PartialEq, Eq, Structural)]
pub enum BorrowState {
    /// No guard is outstanding.
    Unborrowed,
    /// This many shared guards are outstanding, at least one.
    Shared(usize),
    /// One exclusive guard is outstanding.
    Exclusive,
}

/// The access that was asked for cannot be had together with the guards that
/// are outstanding.
#[derive(Clone, Copy, Debug, PartialEq, Eq, Structural)]
pub struct BorrowConflict;

impl BorrowState {
    /// A shared state counts at least one guard.
    pub open spec fn wf(self) -> bool {
        self matches BorrowState::Shared(n) ==> n >= 1
    }

    /// The number of shared guards that are outstanding.
    pub open spec fn readers(self) -> nat {
        match self {
            BorrowState::Shared(n) => n as nat,
            _ => 0,
        }
    }

    /// One more shared guard can be handed out without exceeding the counter.
    pub open spec fn has_room(self) -> bool {
        self.readers() < usize::MAX
    }

    /// A shared guard may be handed out: no exclusive guard is outstanding.
    pub open spec fn admits_shared(self) -> bool {
        !(self is Exclusive)
    }

    /// An exclusive guard may be handed out: no guard at all is outstanding.
    pub open spec fn admits_exclusive(self) -> bool {
        self is Unborrowed
    }

    /// The state after one more shared guard was handed out.
    pub open spec fn share(self) -> BorrowState {
        match self {
            BorrowState::Unborrowed => BorrowState::Shared(1),
            BorrowState::Shared(n) => BorrowState::Shared((n + 1) as usize),
            BorrowState::Exclusive => BorrowState::Exclusive,
        }
    }

    /// The state after one shared guard came back.
    pub open spec fn unshare(self) -> BorrowState {
        match self {
            BorrowState::Shared(n) => if n <= 1 {
                BorrowState::Unborrowed
            } else {
                BorrowState::Shared((n - 1) as usize)
            },
            other => other,
        }
    }

    /// The state after `k` more shared guards were handed out.
    pub open spec fn share_times(self, k: nat) -> BorrowState
        decreases k,
    {
        if k == 0 {
            self
        } else {
            self.share().share_times((k - 1) as nat)
        }
    }

    /// The state after `k` shared guards came back.
    pub open spec fn unshare_times(self, k: nat) -> BorrowState
        decreases k,
    {
        if k == 0 {
            self
        } else {
            self.unshare().unshare_times((k - 1) as nat)
        }
    }

    /// Decides a request for shared access: granted, with the next state,
    /// unless an exclusive guard is outstanding.
    pub fn acquire_shared(self) -> (result: Result<BorrowState, BorrowConflict>)
        requires
            self.has_room(),
        ensures
            result == (if self.admits_shared() {
                Ok::<BorrowState, BorrowConflict>(self.share())
            } else {
                Err::<BorrowState, BorrowConflict>(BorrowConflict)
            }),
            result matches Ok(next) ==> next.wf() && next.readers() == self.readers() + 1,
    {
        match self {
            BorrowState::Unborrowed => Ok(BorrowState::Shared(1)),
            BorrowState::Shared(n) => Ok(BorrowState::Shared(n + 1)),
            BorrowState::Exclusive => Err(BorrowConflict),
        }
    }

    /// Decides a request for exclusive access: granted only when no guard is
    /// outstanding.
    pub fn acquire_exclusive(self) -> (result: Result<BorrowState, BorrowConflict>)
        ensures
            result == (if self.admits_exclusive() {
                Ok::<BorrowState, BorrowConflict>(BorrowState::Exclusive)
            } else {
                Err::<BorrowState, BorrowConflict>(BorrowConflict)
            }),
    {
        match self {
            BorrowState::Unborrowed => Ok(BorrowState::Exclusive),
            _ => Err(BorrowConflict),
        }
    }

    /// The state after a shared guard came back.
    pub fn release_shared(self) -> (next: BorrowState)
        requires
            self.wf(),
            self is Shared,
        ensures
            next == self.unshare(),
            next.wf(),
            next.readers() == self.readers() - 1,
            !(next is Exclusive),
    {
        match self {
            BorrowState::Shared(n) => if n <= 1 {
                BorrowState::Unborrowed
            } else {
                BorrowState::Shared(n - 1)
            },
            other => other,
        }
    }
}

/// A value together with the record of how it is lent out.
///
/// Guards are plain tokens. A guard is obtained from the cell, gives access
/// to the value while the cell is in the matching state, and is handed back
/// to the cell by its `release`.
#[derive(Debug)]
pub struct BorrowCell<T> {
    value: T,
    state: BorrowState,
}

/// The token of one shared borrow of a [`BorrowCell`].
#[derive(Debug)]
pub struct Ref<T> {
    marker: PhantomData<T>,
}

/// The token of the exclusive borrow of a [`BorrowCell`].
#[derive(Debug)]
pub struct RefMut<T> {
    marker: PhantomData<T>,
}

impl<T> BorrowCell<T> {
    /// The value in the cell.
    pub closed spec fn value(&self) -> T {
        self.value
    }

    /// How the cell is lent out.
    pub closed spec fn state(&self) -> BorrowState {
        self.state
    }

    /// The cell's invariant: its state is well formed.
    pub open spec fn wf(&self) -> bool {
        self.state().wf()
    }

    /// A cell holding `value`, with no guard outstanding.
    pub fn new(value: T) -> (cell: Self)
        ensures
            cell.wf(),
            cell.value() == value,
            cell.state() == BorrowState::Unborrowed,
    {
        BorrowCell { value, state: BorrowState::Unborrowed }
    }

    /// Takes the cell apart and returns the value.
    pub fn into_inner(self) -> (value: T)
        ensures
            value == self.value(),
    {
        self.value
    }

    /// How the cell is lent out.
    pub fn borrow_state(&self) -> (state: BorrowState)
        ensures
            state == self.state(),
    {
        self.state
    }

    /// Asks for shared access. Granted from `Unborrowed` and from `Shared`,
    /// counting one more guard; refused at once, with the cell unchanged,
    /// while the exclusive guard is outstanding.
    pub fn try_borrow(&mut self) -> (result: Result<Ref<T>, BorrowConflict>)
        requires
            old(self).wf(),
            old(self).state().has_room(),
        ensures
            final(self).wf(),
            final(self).value() == old(self).value(),
            result is Ok <==> old(self).state().admits_shared(),
            result is Ok ==> final(self).state() == old(self).state().share(),
            result is Err ==> final(self).state() == old(self).state(),
    {
        match self.state.acquire_shared() {
            Ok(next) => {
                self.state = next;
                Ok(Ref { marker: PhantomData })
            },
            Err(conflict) => Err(conflict),
        }
    }

    /// Shared access where the caller knows that no exclusive guard is
    /// outstanding.
    pub fn borrow(&mut self) -> (guard: Ref<T>)
        requires
            old(self).wf(),
            old(self).state().has_room(),
            old(self).state().admits_shared(),
        ensures
            final(self).wf(),
            final(self).value() == old(self).value(),
            final(self).state() == old(self).state().share(),
    {
        self.state = self.state.acquire_shared().unwrap();
        Ref { marker: PhantomData }
    }

    /// Asks for exclusive access. Granted only from `Unborrowed`; refused at
    /// once, with the cell unchanged, while any guard is outstanding.
    pub fn try_borrow_mut(&mut self) -> (result: Result<RefMut<T>, BorrowConflict>)
        requires
            old(self).wf(),
        ensures
            final(self).wf(),
            final(self).value() == old(self).value(),
            result is Ok <==> old(self).state().admits_exclusive(),
            result is Ok ==> final(self).state() == BorrowState::Exclusive,
            result is Err ==> final(self).state() == old(self).state(),
    {
        match self.state.acquire_exclusive() {
            Ok(next) => {
                self.state = next;
                Ok(RefMut { marker: PhantomData })
            },
            Err(conflict) => Err(conflict),
        }
    }

    /// Exclusive access where the caller knows that no guard is outstanding.
    pub fn borrow_mut(&mut self) -> (guard: RefMut<T>)
        requires
            old(self).wf(),
            old(self).state().admits_exclusive(),
        ensures
            final(self).wf(),
            final(self).value() == old(self).value(),
            final(self).state() == BorrowState::Exclusive,
    {
        self.state = self.state.acquire_exclusive().unwrap();
        RefMut { marker: PhantomData }
    }
}

impl<T> Ref<T> {
    /// The value of the cell that the guard was obtained from.
    pub fn get<'a>(&self, cell: &'a BorrowCell<T>) -> (value: &'a T)
        requires
            cell.state() is Shared,
        ensures
            *value == cell.value(),
    {
        &cell.value
    }

    /// Hands the guard back: one shared guard less, and `Unborrowed` after
    /// the last.
    pub fn release(self, cell: &mut BorrowCell<T>)
        requires
            old(cell).wf(),
            old(cell).state() is Shared,
        ensures
            final(cell).wf(),
            final(cell).value() == old(cell).value(),
            final(cell).state() == old(cell).state().unshare(),
    {
        cell.state = cell.state.release_shared();
    }
}

impl<T> RefMut<T> {
    /// The value of the cell that the guard was obtained from.
    pub fn get<'a>(&self, cell: &'a BorrowCell<T>) -> (value: &'a T)
        requires
            cell.state() is Exclusive,
        ensures
            *value == cell.value(),
    {
        &cell.value
    }

    /// Mutable access to the value of the cell that the guard was obtained
    /// from. The cell stays exclusively lent.
    pub fn get_mut<'a>(&mut self, cell: &'a mut BorrowCell<T>) -> (value: &'a mut T)
        requires
            old(cell).state() is Exclusive,
        ensures
            *value == old(cell).value(),
            final(cell).value() == *final(value),
            final(cell).state() == old(cell).state(),
    {
        &mut cell.value
    }

    /// Hands the guard back: the cell is `Unborrowed` again.
    pub fn release(self, cell: &mut BorrowCell<T>)
        requires
            old(cell).state() is Exclusive,
        ensures
            final(cell).wf(),
            final(cell).value() == old(cell).value(),
            final(cell).state() == BorrowState::Unborrowed,
    {
        cell.state = BorrowState::Unborrowed;
    }
}

} // verus!
