//! Atomic counting semaphore that can help you control access to a common
//! resource by multiple processes in a concurrent system.
//!
//! ## Features
//!
//! - Effectively lock-free* semantics
//! - Provides RAII-style acquire/release API
//! - Cheaply clonable handles that all share the same state
//!
//! _* lock-free when not using the `shutdown` API_
//!
//! What any single call observes depends on the interleaving of every
//! concurrent caller, so the laws of the design — capacity is never
//! exceeded, a shared acquisition is released exactly once, shutdown is
//! permanent and hands the resource to exactly one caller — are stated
//! and proved over the abstract model in the `state` module, and every
//! decision the executable code takes goes through functions contracted
//! against that model.

use vstd::prelude::*;

pub mod guard;
pub mod raw;
pub mod shutdown;
mod slot;
pub mod state;
mod sync;

use std::sync::Arc;

use crate::raw::RawSemaphore;
use crate::slot::ResourceSlot;
use crate::sync::arc_clone;

pub use crate::guard::SemaphoreGuard;
pub use crate::shutdown::ShutdownHandle;

verus! {

/// Result returned from `Semaphore::try_access`.
pub type TryAccessResult<T> = Result<SemaphoreGuard<T>, TryAccessError>;

/// Error indicating a failure to acquire access to the resource behind
/// the semaphore.
///
/// Returned from `Semaphore::try_access`.
#[derive(Copy, Clone, Debug, PartialEq, Eq, Structural)]
pub enum TryAccessError {
    /// This semaphore has shut down and will no longer grant access to the
    /// underlying resource.
    Shutdown,
    /// This semaphore has no more capacity to grant further access.
    /// Other access needs to be released before this semaphore can grant
    /// more.
    NoCapacity,
}

/// Counting semaphore to control concurrent access to a common resource.
#[verifier::reject_recursive_types(T)]
pub struct Semaphore<T> {
    raw: Arc<RawSemaphore>,
    resource: Arc<ResourceSlot<T>>,
}

impl<T> Clone for Semaphore<T> {
    /// Duplicate the handle, not the state: all clones observe the same
    /// capacity and the same resource lifecycle.
    fn clone(&self) -> (r: Semaphore<T>)
        ensures
            r.spec_raw() == self.spec_raw(),
            r.spec_capacity() == self.spec_capacity(),
            r.spec_resource() == self.spec_resource(),
    {
        Semaphore { raw: arc_clone(&self.raw), resource: arc_clone(&self.resource) }
    }
}

impl<T> Semaphore<T> {
    /// The semaphore core shared by this handle, its clones, its guards
    /// and its shutdown handles.
    pub closed spec fn spec_raw(&self) -> RawSemaphore {
        *self.raw
    }

    /// The fixed capacity this semaphore was created with.
    pub closed spec fn spec_capacity(&self) -> nat {
        self.spec_raw().spec_capacity()
    }

    /// The resource value this semaphore guards: the one its guards read
    /// and its winning shutdown handle extracts.
    pub closed spec fn spec_resource(&self) -> T {
        (*self.resource).spec_value()
    }

    /// Create a new semaphore around a resource.
    ///
    /// The semaphore will limit the number of processes that can access
    /// the underlying resource at every point in time to the specified
    /// capacity, which must be positive.
    pub fn new(capacity: usize, resource: T) -> (s: Semaphore<T>)
        requires
            1 <= capacity,
        ensures
            s.spec_capacity() == capacity,
            s.spec_resource() == resource,
    {
        Semaphore {
            raw: Arc::new(RawSemaphore::new(capacity)),
            resource: Arc::new(ResourceSlot::new(resource)),
        }
    }

    /// Attempt to access the underlying resource of this semaphore.
    ///
    /// This function will try to acquire access, and then return an RAII
    /// guard structure which will release the access when it falls out of
    /// scope.
    ///
    /// The slot is read first and is authoritative: when it was observed
    /// empty the attempt fails with `Shutdown`, regardless of the current
    /// count. Otherwise the call races for capacity and fails with
    /// `NoCapacity` when it loses, consuming none (the resource reference
    /// read from the slot is discarded). Which case a call hits depends
    /// on every concurrent caller; what each observation decides is fixed
    /// by `state::access_result` over the model.
    pub fn try_access(&self) -> (r: TryAccessResult<T>)
        ensures
            r matches Ok(g) ==> g.spec_raw() == self.spec_raw()
                && g.spec_resource() == self.spec_resource(),
    {
        match self.resource.read() {
            None => Err(TryAccessError::Shutdown),
            Some(shared) => {
                if self.raw.try_acquire() {
                    Ok(guard::new(&self.raw, &shared))
                } else {
                    Err(TryAccessError::NoCapacity)
                }
            },
        }
    }

    /// Shut down the semaphore.
    ///
    /// This prevents any further access from being granted to the
    /// underlying resource. As soon as the last access is released and
    /// the returned handle goes out of scope, the resource will be
    /// dropped.
    ///
    /// Does _not_ block until the resource is no longer in use. If you
    /// would like to do that, you can call `wait` on the returned handle.
    ///
    /// The slot is emptied in a single swap, so of any number of shutdown
    /// calls exactly the first receives the resource on its handle; every
    /// later handle joins the same drain empty-handed.
    pub fn shutdown(&self) -> (h: ShutdownHandle<T>)
        ensures
            h.spec_raw() == self.spec_raw(),
            h.is_winner() ==> h.spec_resource() == Some(self.spec_resource()),
            h.spec_resource() matches Some(taken) ==> taken == self.spec_resource(),
    {
        shutdown::new(&self.raw, self.resource.take())
    }
}

} // verus!
