//! Concrete scenarios for the laws proved over the model in
//! `semaphore::state`, and probes of the trusted boundary: each would fail
//! if a wrapper handed its argument back unchanged or a decision function
//! answered wrongly.

use semaphore::Semaphore;
use semaphore::TryAccessError;

#[test]
fn capacity_grants_exactly_n_accesses() {
    let sema = Semaphore::new(3, ());
    let first = sema.try_access().expect("guard acquisition failed");
    let second = sema.try_access().expect("guard acquisition failed");
    let third = sema.try_access().expect("guard acquisition failed");
    assert_eq!(sema.try_access().err().unwrap(), TryAccessError::NoCapacity);
    drop(second);
    let again = sema.try_access().expect("guard acquisition failed");
    assert_eq!(sema.try_access().err().unwrap(), TryAccessError::NoCapacity);
    drop(first);
    drop(third);
    drop(again);
}

#[test]
fn cloned_guard_shares_a_single_acquisition() {
    let sema = Semaphore::new(1, ());
    let guard = sema.try_access().expect("guard acquisition failed");
    let sibling = guard.clone();
    drop(guard);
    assert_eq!(sema.try_access().err().unwrap(), TryAccessError::NoCapacity);
    drop(sibling);
    assert!(sema.try_access().ok().is_some());
}

#[test]
fn cloning_a_guard_consumes_no_capacity() {
    let sema = Semaphore::new(2, ());
    let guard = sema.try_access().expect("guard acquisition failed");
    let sibling = guard.clone();
    let other = sema.try_access().expect("guard acquisition failed");
    assert_eq!(sema.try_access().err().unwrap(), TryAccessError::NoCapacity);
    drop(sibling);
    drop(other);
    drop(guard);
}

#[test]
fn shutdown_refuses_access_despite_free_capacity() {
    let sema = Semaphore::new(2, ());
    let guard = sema.try_access().expect("guard acquisition failed");
    sema.shutdown();
    assert_eq!(sema.try_access().err().unwrap(), TryAccessError::Shutdown);
    drop(guard);
    assert_eq!(sema.try_access().err().unwrap(), TryAccessError::Shutdown);
}

#[test]
fn completion_arrives_with_the_last_clone() {
    let sema = Semaphore::new(1, ());
    let guard = sema.try_access().expect("guard acquisition failed");
    let sibling = guard.clone();
    let handle = sema.shutdown();
    assert_eq!(false, handle.is_complete());
    drop(guard);
    assert_eq!(false, handle.is_complete());
    drop(sibling);
    assert_eq!(true, handle.is_complete());
    assert_eq!(Some(()), handle.wait());
}

#[test]
fn exactly_one_handle_extracts_the_value() {
    let sema = Semaphore::new(1, 42i32);
    let first = sema.shutdown();
    let second = sema.shutdown();
    let third = sema.shutdown();
    assert_eq!(None, third.wait());
    assert_eq!(Some(42), first.wait());
    assert_eq!(None, second.wait());
}

#[test]
fn completion_reports_stay_stable() {
    let sema = Semaphore::new(1, 7u8);
    let winner = sema.shutdown();
    let late = sema.shutdown();
    assert!(winner.is_complete());
    assert!(winner.is_complete());
    assert_eq!(Some(7), winner.wait());
    assert!(late.is_complete());
    assert!(late.is_complete());
    assert_eq!(None, late.wait());
    let after = sema.shutdown();
    assert!(after.is_complete());
    assert_eq!(None, after.wait());
}

#[test]
fn guard_reads_the_resource_without_locking() {
    let sema = Semaphore::new(2, String::from("shared"));
    let guard = sema.try_access().expect("guard acquisition failed");
    let sibling = guard.clone();
    assert_eq!(*guard, "shared");
    assert_eq!(*sibling, "shared");
    drop(guard);
    assert_eq!(*sibling, "shared");
}

#[test]
fn guard_outlives_shutdown_and_keeps_reading() {
    let sema = Semaphore::new(1, 5u64);
    let guard = sema.try_access().expect("guard acquisition failed");
    let handle = sema.shutdown();
    assert_eq!(*guard, 5);
    assert_eq!(false, handle.is_complete());
    drop(guard);
    assert_eq!(Some(5), handle.wait());
}

#[test]
fn cloned_semaphores_share_state() {
    let sema = Semaphore::new(1, ());
    let twin = sema.clone();
    let guard = twin.try_access().expect("guard acquisition failed");
    assert_eq!(sema.try_access().err().unwrap(), TryAccessError::NoCapacity);
    drop(guard);
    sema.shutdown();
    assert_eq!(twin.try_access().err().unwrap(), TryAccessError::Shutdown);
}

#[test]
fn churn_never_exceeds_capacity() {
    let sema = Semaphore::new(3, ());
    for round in 0..50 {
        let mut held = Vec::new();
        while let Ok(guard) = sema.try_access() {
            held.push(guard);
        }
        assert_eq!(held.len(), 3);
        assert_eq!(sema.try_access().err().unwrap(), TryAccessError::NoCapacity);
        if round % 2 == 0 {
            let extra = held[0].clone();
            held.push(extra);
            assert_eq!(sema.try_access().err().unwrap(), TryAccessError::NoCapacity);
        }
        held.clear();
        let refill = sema.try_access().expect("guard acquisition failed");
        drop(refill);
    }
}
