//! Single-threaded shared ownership with checked interior mutation.
//!
//! Values live in blocks of a [`Heap`]. A [`StrongHandle`] owns a share of a
//! block's value, a [`WeakHandle`] observes a block without keeping its value
//! alive, and a [`BorrowCell`] checks at run time that its value is lent to
//! many readers or to one writer. All bookkeeping is explicit: a handle is
//! given back to the heap with its `drop`, a guard to its cell with its
//! `release`.

mod allocation;
pub mod borrow_cell;
pub mod heap;
pub mod laws;
pub mod model;
pub mod strong;
pub mod weak;

pub use crate::borrow_cell::{BorrowCell, BorrowConflict, BorrowState, Ref, RefMut};
pub use crate::heap::Heap;
pub use crate::strong::StrongHandle;
pub use crate::weak::WeakHandle;
