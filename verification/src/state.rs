//! Mathematical model of the semaphore.
//!
//! The concurrent implementation races many threads against a shared atomic
//! counter and a resource slot; what any single call observes depends on the
//! interleaving. The laws of the design are therefore stated and proved here,
//! over an abstract state and arbitrary traces of events, and the executable
//! code makes every decision through functions whose contracts are phrased in
//! terms of this model.

use vstd::prelude::*;

use crate::TryAccessError;

verus! {

/// Abstract state of a semaphore: the fixed capacity, the number of units
/// currently held, and whether the resource is still in its slot.
pub struct SemState {
    pub limit: nat,
    pub active: nat,
    pub present: bool,
}

/// The events that change a semaphore's state: an access attempt, the
/// release of one held unit, and a shutdown call.
pub enum SemEvent {
    Access,
    Release,
    Shutdown,
}

/// The state a freshly constructed semaphore starts in.
pub open spec fn initial(limit: nat) -> SemState {
    SemState { limit, active: 0, present: true }
}

/// The invariant of every reachable state: a positive capacity that the
/// active count never exceeds.
pub open spec fn state_wf(s: SemState) -> bool {
    1 <= s.limit && s.active <= s.limit
}

/// Whether an acquisition attempt succeeds against an observed count.
pub open spec fn can_acquire(active: nat, limit: nat) -> bool {
    active < limit
}

/// Whether the release of one unit out of `previous` held units is the one
/// that drains the semaphore (and so must wake the waiters).
pub open spec fn releases_last(previous: nat) -> bool {
    previous == 1
}

/// Whether the drain is complete: no unit of capacity is held.
pub open spec fn is_drained(s: SemState) -> bool {
    s.active == 0
}

/// What `try_access` reports in a given state: `None` means a guard is
/// granted. The empty slot is authoritative, independent of the count.
pub open spec fn access_result(s: SemState) -> Option<TryAccessError> {
    if !s.present {
        Some(TryAccessError::Shutdown)
    } else if !can_acquire(s.active, s.limit) {
        Some(TryAccessError::NoCapacity)
    } else {
        None
    }
}

/// Whether a shutdown call in state `s` is the one that takes the resource.
pub open spec fn shutdown_wins(s: SemState) -> bool {
    s.present
}

/// What a single event does to the state. A failed access attempt, a
/// release without a holder, and a repeated shutdown leave it unchanged.
pub open spec fn step(s: SemState, e: SemEvent) -> SemState {
    match e {
        SemEvent::Access => if s.present && can_acquire(s.active, s.limit) {
            SemState { active: s.active + 1, ..s }
        } else {
            s
        },
        SemEvent::Release => if s.active >= 1 {
            SemState { active: (s.active - 1) as nat, ..s }
        } else {
            s
        },
        SemEvent::Shutdown => (SemState { present: false, ..s }),
    }
}

/// The state after a whole trace of events.
pub open spec fn run(s: SemState, es: Seq<SemEvent>) -> SemState
    decreases es.len(),
{
    if es.len() == 0 {
        s
    } else {
        run(step(s, es[0]), es.skip(1))
    }
}

/// How many events of a trace are shutdown calls.
pub open spec fn shutdown_count(es: Seq<SemEvent>) -> nat
    decreases es.len(),
{
    if es.len() == 0 {
        0
    } else {
        (if es[0] is Shutdown {
            1nat
        } else {
            0nat
        }) + shutdown_count(es.skip(1))
    }
}

/// How many shutdown calls of a trace observe the resource still present.
pub open spec fn winning_shutdowns(s: SemState, es: Seq<SemEvent>) -> nat
    decreases es.len(),
{
    if es.len() == 0 {
        0
    } else {
        (if es[0] is Shutdown && shutdown_wins(s) {
            1nat
        } else {
            0nat
        }) + winning_shutdowns(step(s, es[0]), es.skip(1))
    }
}

/// A trace of `k` access attempts.
pub open spec fn access_events(k: nat) -> Seq<SemEvent> {
    Seq::new(k, |i: int| SemEvent::Access)
}

/// Law: no event violates the state invariant — in particular the active
/// count never exceeds the capacity, and never goes below zero.
pub proof fn lemma_step_preserves_wf(s: SemState, e: SemEvent)
    requires
        state_wf(s),
    ensures
        state_wf(step(s, e)),
{
}

/// Law: along every trace of events, from every well-formed state, the
/// active count stays between zero and the capacity.
pub proof fn lemma_wf_along_trace(s: SemState, es: Seq<SemEvent>)
    requires
        state_wf(s),
    ensures
        state_wf(run(s, es)),
    decreases es.len(),
{
    if es.len() > 0 {
        lemma_step_preserves_wf(s, es[0]);
        lemma_wf_along_trace(step(s, es[0]), es.skip(1));
    }
}

/// Law: a semaphore of capacity `limit` grants exactly `limit` accesses.
/// Starting from the initial state, each of the first `limit` attempts
/// succeeds and raises the active count by one; once the count has reached
/// the capacity, the next attempt fails with `NoCapacity`.
pub proof fn lemma_exact_capacity(limit: nat, k: nat)
    requires
        1 <= limit,
        k <= limit,
    ensures
        run(initial(limit), access_events(k)).active == k,
        run(initial(limit), access_events(k)).limit == limit,
        run(initial(limit), access_events(k)).present,
        k < limit ==> access_result(run(initial(limit), access_events(k))) is None,
        k == limit ==> access_result(run(initial(limit), access_events(k)))
            == Some(TryAccessError::NoCapacity),
{
    lemma_access_run(initial(limit), k);
}

/// Helper: `k` access attempts against a state with room for all of them
/// succeed one by one.
proof fn lemma_access_run(s: SemState, k: nat)
    requires
        s.present,
        s.active + k <= s.limit,
    ensures
        run(s, access_events(k)) == (SemState { active: s.active + k, ..s }),
    decreases k,
{
    if k == 0 {
        assert(access_events(0) =~= Seq::<SemEvent>::empty());
        assert(run(s, access_events(0)) == s);
        assert(s == (SemState { active: s.active + 0, ..s }));
    } else {
        let stepped = step(s, SemEvent::Access);
        assert(stepped == (SemState { active: s.active + 1, ..s }));
        assert(access_events(k).skip(1) =~= access_events((k - 1) as nat));
        lemma_access_run(stepped, (k - 1) as nat);
    }
}

/// Law: releasing one unit of a full semaphore frees exactly one slot —
/// the next access succeeds, and the one after that fails again.
pub proof fn lemma_release_frees_one_slot(s: SemState)
    requires
        state_wf(s),
        s.present,
        s.active == s.limit,
    ensures
        access_result(s) == Some(TryAccessError::NoCapacity),
        access_result(step(s, SemEvent::Release)) is None,
        step(step(s, SemEvent::Release), SemEvent::Access).active == s.limit,
        access_result(step(step(s, SemEvent::Release), SemEvent::Access))
            == Some(TryAccessError::NoCapacity),
{
}

/// Law: shutdown is permanent. Once the resource is gone, no later event
/// brings it back, and every access attempt fails with `Shutdown`,
/// regardless of the active count.
pub proof fn lemma_shutdown_is_permanent(s: SemState, es: Seq<SemEvent>)
    requires
        !s.present,
    ensures
        !run(s, es).present,
        access_result(run(s, es)) == Some(TryAccessError::Shutdown),
    decreases es.len(),
{
    if es.len() > 0 {
        lemma_shutdown_is_permanent(step(s, es[0]), es.skip(1));
    }
}

/// Law: the drain completes exactly at the release of the last held unit.
/// It is not complete while at least one unit is outstanding, and the
/// release that returns the count to zero — and only that one — completes
/// it.
pub proof fn lemma_drained_at_last_release(s: SemState)
    ensures
        s.active >= 1 ==> !is_drained(s),
        s.active == 1 ==> is_drained(step(s, SemEvent::Release)),
        s.active > 1 ==> !is_drained(step(s, SemEvent::Release)),
        s.active >= 1 ==> (is_drained(step(s, SemEvent::Release)) <==> releases_last(s.active)),
{
}

/// Law: of any number of shutdown calls, under an arbitrary interleaving
/// with accesses and releases, exactly one observes the resource.
pub proof fn lemma_exactly_one_winner(s: SemState, es: Seq<SemEvent>)
    requires
        s.present,
        shutdown_count(es) >= 1,
    ensures
        winning_shutdowns(s, es) == 1,
    decreases es.len(),
{
    let stepped = step(s, es[0]);
    if es[0] is Shutdown {
        assert(!stepped.present);
        lemma_no_winner_without_resource(stepped, es.skip(1));
    } else {
        assert(stepped.present);
        lemma_exactly_one_winner(stepped, es.skip(1));
    }
}

/// Law: once the resource is gone, no shutdown call in any later trace
/// observes it.
pub proof fn lemma_no_winner_without_resource(s: SemState, es: Seq<SemEvent>)
    requires
        !s.present,
    ensures
        winning_shutdowns(s, es) == 0,
    decreases es.len(),
{
    if es.len() > 0 {
        lemma_no_winner_without_resource(step(s, es[0]), es.skip(1));
    }
}

/// Law: two shutdown calls can never both observe the resource, whatever
/// the starting state and whatever the trace.
pub proof fn lemma_never_two_winners(s: SemState, es: Seq<SemEvent>)
    ensures
        winning_shutdowns(s, es) <= 1,
    decreases es.len(),
{
    if !s.present {
        lemma_no_winner_without_resource(s, es);
    } else if es.len() > 0 {
        if es[0] is Shutdown {
            lemma_no_winner_without_resource(step(s, es[0]), es.skip(1));
        } else {
            lemma_never_two_winners(step(s, es[0]), es.skip(1));
        }
    }
}

/// The events in the life of the guard values that share one held unit
/// of capacity: cloning a live guard value, and dropping one.
pub enum GuardEvent {
    Cloned,
    Dropped,
}

/// What one event does to the number of live guard values sharing the
/// unit.
pub open spec fn guard_step(live: nat, e: GuardEvent) -> nat {
    match e {
        GuardEvent::Cloned => live + 1,
        GuardEvent::Dropped => if live >= 1 {
            (live - 1) as nat
        } else {
            0
        },
    }
}

/// The number of live guard values after a whole trace.
pub open spec fn guard_run(live: nat, es: Seq<GuardEvent>) -> nat
    decreases es.len(),
{
    if es.len() == 0 {
        live
    } else {
        guard_run(guard_step(live, es[0]), es.skip(1))
    }
}

/// A trace is meaningful only while a guard value exists to be cloned or
/// dropped: every event of it happens at a positive live count.
pub open spec fn guard_trace_valid(live: nat, es: Seq<GuardEvent>) -> bool
    decreases es.len(),
{
    es.len() == 0 || (live >= 1 && guard_trace_valid(guard_step(live, es[0]), es.skip(1)))
}

/// How many events of a trace release the unit of capacity: the drops
/// that observe the last live guard value.
pub open spec fn guard_releases(live: nat, es: Seq<GuardEvent>) -> nat
    decreases es.len(),
{
    if es.len() == 0 {
        0
    } else {
        (if es[0] is Dropped && releases_last(live) {
            1nat
        } else {
            0nat
        }) + guard_releases(guard_step(live, es[0]), es.skip(1))
    }
}

/// Law: however the guard values sharing one acquisition are cloned and
/// dropped, in whatever interleaving, the unit of capacity is released
/// exactly once — by the drop that takes the live count to zero — and
/// never while any guard value is still live.
pub proof fn lemma_release_exactly_once(live: nat, es: Seq<GuardEvent>)
    requires
        1 <= live,
        guard_trace_valid(live, es),
    ensures
        guard_releases(live, es) == if guard_run(live, es) == 0 {
            1nat
        } else {
            0nat
        },
    decreases es.len(),
{
    if es.len() > 0 {
        let next = guard_step(live, es[0]);
        if es[0] is Dropped && live == 1 {
            assert(next == 0);
            assert(guard_trace_valid(next, es.skip(1)));
            if es.skip(1).len() != 0 {
                assert(next >= 1);
            }
            assert(es.skip(1).len() == 0);
            assert(guard_releases(next, es.skip(1)) == 0);
            assert(guard_run(next, es.skip(1)) == 0);
            assert(guard_run(live, es) == 0);
            assert(guard_releases(live, es) == 1);
        } else {
            assert(next >= 1);
            lemma_release_exactly_once(next, es.skip(1));
        }
    }
}

/// Law: with one unit of capacity outstanding, shared by any number of
/// guard clones, the drain completes exactly when the last clone drops.
/// While any clone is live, no release has happened and the drain is not
/// complete; the trace that ends the last clone performs the single
/// release, and that release is the one that drains the semaphore.
pub proof fn lemma_complete_at_last_clone(s: SemState, live: nat, es: Seq<GuardEvent>)
    requires
        s.active == 1,
        1 <= live,
        guard_trace_valid(live, es),
    ensures
        guard_run(live, es) >= 1 ==> guard_releases(live, es) == 0 && !is_drained(s),
        guard_run(live, es) == 0 ==> guard_releases(live, es) == 1 && is_drained(
            step(s, SemEvent::Release),
        ),
{
    lemma_release_exactly_once(live, es);
}

/// Law: a drained, shut-down semaphore is final. No event changes its
/// state, so repeated completion polls and repeated waits keep reporting
/// the same outcome, without side effects.
pub proof fn lemma_drained_state_is_final(s: SemState, es: Seq<SemEvent>)
    requires
        !s.present,
        s.active == 0,
    ensures
        run(s, es) == s,
    decreases es.len(),
{
    if es.len() > 0 {
        assert(step(s, es[0]) == s);
        lemma_drained_state_is_final(step(s, es[0]), es.skip(1));
    }
}

} // verus!
