//! The atomic counting core: bounded acquire and release over an atomic
//! counter, plus a blocking "wait until drained" primitive.

use vstd::prelude::*;

use core::sync::atomic::AtomicUsize;
use core::sync::atomic::Ordering;

use crate::state::can_acquire;
use crate::state::releases_last;
use crate::sync::condvar_new;
use crate::sync::condvar_notify_all;
use crate::sync::condvar_wait_while;
use crate::sync::counter_decrement;
use crate::sync::mutex_lock;
use crate::sync::mutex_new;
use crate::sync::mutex_unlock;

verus! {

/// The shared counting core of a semaphore. `active` is only ever mutated
/// atomically; `limit` is fixed at construction. The mutex/condition pair
/// exists solely to wake threads blocked in `wait_until_all_released` and
/// is never touched on the acquire fast path.
pub struct RawSemaphore {
    active: AtomicUsize,
    limit: usize,
    lock: parking_lot::Mutex<()>,
    cond: parking_lot::Condvar,
}

/// One decision of the optimistic acquire loop, taken against a single
/// observation of the active count: the attempt succeeds exactly when the
/// observed count is below the capacity, and then raises it by one.
fn acquire_step(observed: usize, limit: usize) -> (r: Option<usize>)
    ensures
        r is Some <==> can_acquire(observed as nat, limit as nat),
        r matches Some(next) ==> next == observed + 1,
{
    if observed < limit {
        Some(observed + 1)
    } else {
        None
    }
}

/// The decision taken against the counter value a release observed: the
/// release of the last held unit — and only that one — drains the
/// semaphore and must wake the waiters.
fn release_step(previous: usize) -> (r: bool)
    ensures
        r <==> releases_last(previous as nat),
    opens_invariants none
    no_unwind
{
    previous == 1
}

impl RawSemaphore {
    /// The fixed capacity of this semaphore core.
    pub closed spec fn spec_capacity(&self) -> nat {
        self.limit as nat
    }

    /// Create a semaphore core with the given positive capacity and no
    /// unit held.
    pub fn new(limit: usize) -> (r: RawSemaphore)
        requires
            1 <= limit,
        ensures
            r.spec_capacity() == limit,
    {
        RawSemaphore {
            active: AtomicUsize::new(0),
            limit,
            lock: mutex_new(),
            cond: condvar_new(),
        }
    }

    /// Race for one unit of capacity: lock-free, never blocks. Each
    /// iteration observes the counter once and decides through
    /// `acquire_step`; a compare-and-swap that loses against a concurrent
    /// mutation re-reads and retries, up to a bound far beyond any real
    /// contention (every retry means another thread mutated the counter
    /// meanwhile). Whether the call wins depends on every concurrent
    /// caller, so nothing more can be promised of the returned flag; the
    /// counting logic itself is the verified step.
    pub fn try_acquire(&self) -> bool {
        let mut retries: usize = usize::MAX;
        loop
            decreases retries,
        {
            let observed: usize = self.active.load(Ordering::SeqCst);
            match acquire_step(observed, self.limit) {
                None => {
                    return false;
                },
                Some(next) => {
                    let swapped = self.active.compare_exchange(
                        observed,
                        next,
                        Ordering::SeqCst,
                        Ordering::SeqCst,
                    );
                    if swapped.is_ok() {
                        return true;
                    }
                },
            }
            if retries == 0 {
                return false;
            }
            retries = retries - 1;
        }
    }

    /// Give one held unit of capacity back. Only the release that drains
    /// the semaphore touches the mutex and broadcasts the drain condition;
    /// every other release stays lock-free. Never unwinds, so the guard
    /// drop may call it.
    pub fn release(&self)
        opens_invariants none
    no_unwind
    {
        let previous = counter_decrement(&self.active);
        if release_step(previous) {
            let held = mutex_lock(&self.lock);
            condvar_notify_all(&self.cond);
            mutex_unlock(held);
        }
    }

    /// Block until no unit of capacity is held: takes the drain mutex and
    /// waits on the drain condition while `is_active` reports true. The
    /// wait re-checks the counter under the mutex after every wakeup, so
    /// the call returns only once a zero count was observed while holding
    /// the mutex, immune to spurious wakeups and to the race between a
    /// late decrement to zero and a thread about to park.
    pub fn wait_until_all_released(&self) {
        let mut held = mutex_lock(&self.lock);
        condvar_wait_while(&self.cond, &mut held, |_unused: &mut ()| self.is_active());
        mutex_unlock(held);
    }

    /// Advisory snapshot: whether any unit of capacity was held at the
    /// instant of the call. The answer may be stale as soon as it returns.
    pub fn is_active(&self) -> bool {
        let observed: usize = self.active.load(Ordering::SeqCst);
        observed > 0
    }
}

} // verus!
