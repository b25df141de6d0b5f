//! The RAII acquisition token handed out by `Semaphore::try_access`.
//!
//! One guard stands for one held unit of the raw semaphore's capacity,
//! but that unit may be shared across several guard values by cloning.
//! A dedicated acquisition refcount — distinct from the semaphore's own
//! counter — tracks how many live guard values share the unit, and the
//! drop that takes it from one to zero is the one that releases the unit,
//! exactly once. The law behind this protocol is proved in
//! `state::lemma_release_exactly_once`.

use vstd::prelude::*;

use core::sync::atomic::AtomicUsize;
use core::sync::atomic::Ordering;
use std::sync::Arc;

use crate::raw::RawSemaphore;
use crate::state::releases_last;
use crate::sync::arc_clone;
use crate::sync::counter_decrement;

verus! {

/// RAII guard used to release access to the semaphore automatically when
/// it falls out of scope.
///
/// Returned from `Semaphore::try_access`.
///
/// ## Sharing guards
///
/// Cloning a guard shares its single unit of capacity across several guard
/// values without consuming more capacity; the unit is given back when the
/// last of them is dropped.
pub struct SemaphoreGuard<T> {
    raw: Arc<RawSemaphore>,
    count: Arc<AtomicUsize>,
    resource: Arc<T>,
}

/// The decision a guard drop takes against the acquisition refcount it
/// observed: the drop that finds the last live guard value — and only
/// that one — releases the unit of capacity.
fn drop_step(previous: usize) -> (r: bool)
    ensures
        r <==> releases_last(previous as nat),
    opens_invariants none
    no_unwind
{
    previous == 1
}

/// Wrap one freshly acquired unit of the raw semaphore into a guard
/// sharing the given resource, with its acquisition refcount starting at
/// one.
pub fn new<T>(raw: &Arc<RawSemaphore>, resource: &Arc<T>) -> (g: SemaphoreGuard<T>)
    ensures
        g.spec_raw() == **raw,
        g.spec_resource() == **resource,
{
    SemaphoreGuard {
        raw: arc_clone(raw),
        count: Arc::new(AtomicUsize::new(1)),
        resource: arc_clone(resource),
    }
}

impl<T> SemaphoreGuard<T> {
    /// The semaphore core this guard holds one unit of.
    pub closed spec fn spec_raw(&self) -> RawSemaphore {
        *self.raw
    }

    /// The resource value this guard shares access to.
    pub closed spec fn spec_resource(&self) -> T {
        *self.resource
    }
}

impl<T> Clone for SemaphoreGuard<T> {
    /// Share this guard's single unit of capacity with one more guard
    /// value: raises the acquisition refcount by one and consumes no
    /// further semaphore capacity.
    fn clone(&self) -> (r: Self)
        ensures
            r.spec_raw() == self.spec_raw(),
            r.spec_resource() == self.spec_resource(),
    {
        self.count.fetch_add(1, Ordering::SeqCst);
        SemaphoreGuard {
            raw: arc_clone(&self.raw),
            count: arc_clone(&self.count),
            resource: arc_clone(&self.resource),
        }
    }
}

impl<T> Drop for SemaphoreGuard<T> {
    /// Lowers the acquisition refcount by one; the drop observing the
    /// count at one is the last live guard value of this acquisition and
    /// releases the held unit — an atomic decrement-and-check, so two
    /// sibling drops can never both see themselves last.
    fn drop(&mut self)
        opens_invariants none
        no_unwind
    {
        let previous = counter_decrement(&self.count);
        if drop_step(previous) {
            self.raw.release();
        }
    }
}

impl<T> core::ops::Deref for SemaphoreGuard<T> {
    type Target = T;

    /// Read access to the resource, at no cost and without locking.
    fn deref(&self) -> (r: &T)
        ensures
            *r == self.spec_resource(),
    {
        &*self.resource
    }
}

} // verus!
