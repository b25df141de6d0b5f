//! The mutually exclusive cell holding the shared resource.
//!
//! The slot is filled once, at construction, and legally changes exactly
//! once: from present to absent, performed by whichever shutdown call gets
//! to it first. Readers take a fresh shared handle to the resource; the
//! single swap to empty is the only write. Whether a given call still
//! finds the resource depends on every concurrent caller, so the wrappers
//! promise nothing about which case occurs — but the cell is private and
//! no operation ever stores a new value, so every non-empty observation
//! surfaces the one resource the slot was created around, and the
//! contracts say so against the ghost record of that value.

use vstd::prelude::*;

use std::sync::Arc;

verus! {

/// A swappable cell with the resource while the semaphore is active, and
/// empty from the first shutdown on.
#[verifier::reject_recursive_types(T)]
pub(crate) struct ResourceSlot<T> {
    cell: parking_lot::RwLock<Option<Arc<T>>>,
    stored: Ghost<T>,
}

/// Relies on parking_lot's `RwLock::new` and `Arc::new` of std: a fresh
/// cell holding the given resource behind a new shared handle.
#[verifier::external_body]
fn cell_around<T>(resource: T) -> parking_lot::RwLock<Option<Arc<T>>> {
    parking_lot::RwLock::new(Some(Arc::new(resource)))
}

impl<T> ResourceSlot<T> {
    /// The resource value this slot was created around: the only value a
    /// read or a take can ever surface.
    pub(crate) closed spec fn spec_value(&self) -> T {
        self.stored@
    }

    /// A slot initially holding the resource.
    pub(crate) fn new(resource: T) -> (r: ResourceSlot<T>)
        ensures
            r.spec_value() == resource,
    {
        let ghost stored: T = resource;
        ResourceSlot { cell: cell_around(resource), stored: Ghost(stored) }
    }

    /// Relies on parking_lot's `RwLock::read`: a shared-lock snapshot of
    /// the slot, handing back a new reference to the resource if one was
    /// present at the instant of the call. Only the stored resource can
    /// come back: nothing else is ever put into the cell.
    #[verifier::external_body]
    pub(crate) fn read(&self) -> (r: Option<Arc<T>>)
        ensures
            r matches Some(shared) ==> *shared == self.spec_value(),
    {
        self.cell.read().as_ref().map(Arc::clone)
    }

    /// Relies on parking_lot's `RwLock::write`: swaps the contents of the
    /// slot with empty in one exclusive critical section and returns what
    /// it held, so of any number of callers at most one ever receives the
    /// resource — and what it receives can only be the stored resource.
    #[verifier::external_body]
    pub(crate) fn take(&self) -> (r: Option<Arc<T>>)
        ensures
            r matches Some(shared) ==> *shared == self.spec_value(),
    {
        self.cell.write().take()
    }
}

} // verus!
