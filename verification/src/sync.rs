//! The trusted boundary towards the outside synchronization primitives.
//!
//! Everything the library takes on trust about `parking_lot` and about the
//! few `std::sync` operations that vstd leaves unspecified is declared in
//! this one module: the opaque lock types, and one wrapper per outside
//! function, each with the contract its documentation and source support.
//! What a lock or an atomic holds at any instant depends on every other
//! thread, so the wrappers promise only what holds of every outcome.

use vstd::prelude::*;

use core::sync::atomic::AtomicUsize;
use core::sync::atomic::Ordering;
use std::sync::Arc;

verus! {

#[verifier::external_type_specification]
#[verifier::external_body]
pub struct ExRawMutex(parking_lot::RawMutex);

#[verifier::external_type_specification]
#[verifier::external_body]
pub struct ExRawRwLock(parking_lot::RawRwLock);

#[verifier::external_type_specification]
#[verifier::external_body]
pub struct ExCondvar(parking_lot::Condvar);

#[verifier::external_type_specification]
#[verifier::external_body]
#[verifier::reject_recursive_types(R)]
#[verifier::reject_recursive_types(T)]
pub struct ExMutex<R, T: ?Sized>(lock_api::Mutex<R, T>);

/// Opaque hold on a locked `parking_lot::Mutex`. The guard type itself
/// cannot be declared to Verus (its declaration carries a bound on an
/// outside trait), so it is carried in this opaque struct instead.
#[verifier::external_body]
pub(crate) struct HeldLock<'a> {
    guard: parking_lot::MutexGuard<'a, ()>,
}

#[verifier::external_type_specification]
#[verifier::external_body]
#[verifier::reject_recursive_types(R)]
#[verifier::reject_recursive_types(T)]
pub struct ExRwLock<R, T: ?Sized>(lock_api::RwLock<R, T>);

/// Relies on parking_lot's `Mutex::new`: creates the mutex, unlocked.
#[verifier::external_body]
pub(crate) fn mutex_new() -> parking_lot::Mutex<()> {
    parking_lot::Mutex::new(())
}

/// Relies on parking_lot's `Mutex::lock`: blocks until the mutex is held
/// and returns the guard that releases it when dropped. Never unwinds.
#[verifier::external_body]
pub(crate) fn mutex_lock<'a>(m: &'a parking_lot::Mutex<()>) -> HeldLock<'a>
    opens_invariants none
    no_unwind
{
    HeldLock { guard: m.lock() }
}

/// Relies on the guard drop of parking_lot's `Mutex`: releases the mutex.
/// Never unwinds.
#[verifier::external_body]
pub(crate) fn mutex_unlock(held: HeldLock<'_>)
    opens_invariants none
    no_unwind
{
    drop(held)
}

/// Relies on parking_lot's `Condvar::new`: creates the condition variable,
/// with no threads waiting on it.
#[verifier::external_body]
pub(crate) fn condvar_new() -> parking_lot::Condvar {
    parking_lot::Condvar::new()
}

/// Relies on parking_lot's `Condvar::notify_all`: wakes every thread
/// currently waiting on the condition. Never unwinds.
#[verifier::external_body]
pub(crate) fn condvar_notify_all(c: &parking_lot::Condvar)
    opens_invariants none
    no_unwind
{
    c.notify_all();
}

/// Relies on parking_lot's `Condvar::wait_while`: parks the calling thread
/// while the condition reports true, atomically releasing the mutex behind
/// the guard for the wait and re-checking the condition after every wakeup,
/// so a spurious or stale wakeup never ends the wait early. The mutex is
/// held again, and the condition was last observed false under it, when the
/// call returns.
#[verifier::external_body]
pub(crate) fn condvar_wait_while<F: FnMut(&mut ()) -> bool>(
    c: &parking_lot::Condvar,
    held: &mut HeldLock<'_>,
    condition: F,
) {
    c.wait_while(&mut held.guard, condition);
}

/// Relies on `AtomicUsize::fetch_sub` of std: atomically subtracts one and
/// returns the value the counter held before, wrapping on underflow. vstd
/// specifies this call, but without the guarantee that it never unwinds,
/// which the release path on the guard drop needs.
#[verifier::external_body]
pub(crate) fn counter_decrement(c: &AtomicUsize) -> (previous: usize)
    opens_invariants none
    no_unwind
{
    c.fetch_sub(1, Ordering::SeqCst)
}

/// Relies on `Arc::clone` of std: returns a new handle that shares the
/// same value.
#[verifier::external_body]
pub(crate) fn arc_clone<T>(a: &Arc<T>) -> (r: Arc<T>)
    ensures
        r == *a,
{
    Arc::clone(a)
}

/// Relies on `Arc::try_unwrap` of std: when the given handle is the only
/// one left, takes the value out; otherwise hands the same handle back.
/// Which of the two happens depends on every other holder, so only the
/// value of each outcome is promised.
#[verifier::external_body]
pub(crate) fn arc_try_unwrap<T>(a: Arc<T>) -> (r: Result<T, Arc<T>>)
    ensures
        r matches Ok(t) ==> t == a,
        r matches Err(e) ==> e == a,
{
    Arc::try_unwrap(a)
}

} // verus!
