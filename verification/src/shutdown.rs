//! The handle representing one caller's part in the shutdown of a
//! semaphore.
//!
//! Every shutdown call gets a handle; the one whose call emptied the
//! resource slot carries the resource and is the only one whose `wait`
//! hands it out. The law that at most one handle can carry it, whatever
//! the interleaving of shutdown calls, is proved in
//! `state::lemma_exactly_one_winner`.

use vstd::prelude::*;

use std::sync::Arc;

use crate::raw::RawSemaphore;
use crate::sync::arc_clone;
use crate::sync::arc_try_unwrap;

verus! {

/// Handle representing the shutdown process of a semaphore, allowing for
/// extraction of the underlying resource.
///
/// Returned from `Semaphore::shutdown`.
pub struct ShutdownHandle<T> {
    raw: Arc<RawSemaphore>,
    resource: Option<Arc<T>>,
}

/// What a shared optional resource handle holds, as a plain value.
pub open spec fn shared_value<T>(resource: Option<Arc<T>>) -> Option<T> {
    match resource {
        Some(shared) => Some(*shared),
        None => None,
    }
}

/// Build the handle a shutdown call returns, around whatever that call
/// swapped out of the resource slot.
pub fn new<T>(raw: &Arc<RawSemaphore>, resource: Option<Arc<T>>) -> (h: ShutdownHandle<T>)
    ensures
        h.spec_raw() == **raw,
        h.spec_resource() == shared_value(resource),
        h.is_winner() <==> resource is Some,
{
    ShutdownHandle { raw: arc_clone(raw), resource }
}

impl<T> ShutdownHandle<T> {
    /// The semaphore core this handle waits on.
    pub closed spec fn spec_raw(&self) -> RawSemaphore {
        *self.raw
    }

    /// The resource this handle carried away from the slot, if it is the
    /// winning handle.
    pub closed spec fn spec_resource(&self) -> Option<T> {
        shared_value(self.resource)
    }

    /// Whether this handle is the one that observed the resource still in
    /// its slot and so will hand it out.
    pub closed spec fn is_winner(&self) -> bool {
        self.resource is Some
    }

    /// Block until all access has been released to the semaphore, and
    /// extract the underlying resource.
    ///
    /// When `Semaphore::shutdown` has been called multiple times, only the
    /// first shutdown handle will return the resource. All others will
    /// return `None` — after blocking for the same drain, so they remain
    /// useful purely as a completion signal.
    ///
    /// Once drained, the winning handle claims sole ownership of the
    /// resource by retrying against reference holders that have not yet
    /// let go. The retry is bounded far beyond any transient contention;
    /// only a holder that never lets go can exhaust it, and then the
    /// resource is given up as `None`.
    #[verifier::loop_isolation(false)]
    pub fn wait(self) -> (r: Option<T>)
        ensures
            !self.is_winner() ==> r is None,
            r matches Some(resource) ==> Some(resource) == self.spec_resource(),
    {
        self.raw.wait_until_all_released();
        match self.resource {
            None => None,
            Some(shared) => {
                let ghost carried: Arc<T> = shared;
                let mut current = shared;
                let mut retries: u64 = u64::MAX;
                loop
                    invariant
                        current == carried,
                    decreases retries,
                {
                    match arc_try_unwrap(current) {
                        Ok(resource) => {
                            return Some(resource);
                        },
                        Err(returned) => {
                            current = returned;
                        },
                    }
                    if retries == 0 {
                        return None;
                    }
                    retries = retries - 1;
                }
            },
        }
    }

    /// Poll whether the drain is complete: no unit of capacity was held
    /// at the instant of the call. Advisory, and stable once the
    /// semaphore is shut down and drained; mirrors the condition `wait`
    /// blocks on.
    pub fn is_complete(&self) -> bool {
        !self.raw.is_active()
    }
}

} // verus!
