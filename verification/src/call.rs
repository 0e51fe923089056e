//! In-flight call identifier tracking shared by clients and servers.

use crate::error::RpcError;
use std::collections::BTreeSet;
use vstd::prelude::*;

verus! {

broadcast use {vstd::std_specs::btree::group_btree_axioms, vstd::laws_cmp::group_laws_cmp};

/// The value `k` steps after `start`, wrapping around the `u32` range.
pub open spec fn wrap_step(start: u32, k: int) -> u32 {
    if start + k < 0x1_0000_0000 {
        (start + k) as u32
    } else {
        (start + k - 0x1_0000_0000) as u32
    }
}

/// `true` when every identifier met while walking from `start` (inclusive)
/// up to `stop` (exclusive), wrapping around the `u32` range, is in `ids`.
pub open spec fn walk_taken(ids: Set<u32>, start: u32, steps: int) -> bool {
    forall|k: int| 0 <= k < steps ==> ids.contains(#[trigger] wrap_step(start, k))
}

/// `true` when every `u32` is in `ids`.
pub open spec fn all_taken(ids: Set<u32>) -> bool {
    forall|x: u32| ids.contains(x)
}

/// The first identifier not in `ids` met while walking upward from `start`,
/// wrapping around, or `None` when every identifier is in `ids`.
pub open spec fn first_free_from(ids: Set<u32>, start: u32) -> Option<u32> {
    if all_taken(ids) {
        None
    } else {
        Some(
            wrap_step(
                start,
                choose|k: int|
                    0 <= k < 0x1_0000_0000 && !ids.contains(#[trigger] wrap_step(start, k))
                        && walk_taken(ids, start, k),
            ),
        )
    }
}

/// A change that a successful call makes to the set of identifiers in
/// flight.
#[derive(Clone, Copy, Debug, PartialEq, Eq, Structural)]
pub enum CallEvent {
    /// `allocate` returned `Ok` of this identifier.
    Allocated(u32),
    /// `register` of this identifier returned `Ok`.
    Registered(u32),
    /// `complete` of this identifier returned `true`.
    Completed(u32),
}

/// The identifier an event is about.
pub open spec fn event_id(e: CallEvent) -> u32 {
    match e {
        CallEvent::Allocated(x) => x,
        CallEvent::Registered(x) => x,
        CallEvent::Completed(x) => x,
    }
}

/// `true` when the event puts its identifier in flight.
pub open spec fn event_adds(e: CallEvent) -> bool {
    !(e is Completed)
}

/// The identifiers in flight after `e`, starting from `ids`.
pub open spec fn apply_event(ids: Set<u32>, e: CallEvent) -> Set<u32> {
    if event_adds(e) {
        ids.insert(event_id(e))
    } else {
        ids.remove(event_id(e))
    }
}

/// The identifiers in flight after `events`, starting from none.
pub open spec fn in_flight_after(events: Seq<CallEvent>) -> Set<u32>
    decreases events.len(),
{
    if events.len() == 0 {
        Set::empty()
    } else {
        apply_event(in_flight_after(events.drop_last()), events.last())
    }
}

/// `true` when the last event of `events` about `x` put it in flight.
pub open spec fn last_change_adds(events: Seq<CallEvent>, x: u32) -> bool
    decreases events.len(),
{
    if events.len() == 0 {
        false
    } else if event_id(events.last()) == x {
        event_adds(events.last())
    } else {
        last_change_adds(events.drop_last(), x)
    }
}

/// After any history of successful allocations, registrations and
/// completions starting from an empty tracker, an identifier is in flight
/// exactly when the last of those calls about it was an allocation or a
/// registration, not a completion; and the set in flight is finite, so its
/// size is the number of such identifiers.
pub proof fn lemma_in_flight_history(events: Seq<CallEvent>)
    ensures
        in_flight_after(events).finite(),
        forall|x: u32| #[trigger] in_flight_after(events).contains(x) <==> last_change_adds(events, x),
    decreases events.len(),
{
    if events.len() > 0 {
        lemma_in_flight_history(events.drop_last());
    }
}

/// A history grows by the call that follows it: the set after `events`
/// and then `e` is the set after `events` changed by `e`. With the contracts
/// of `allocate`, `register` and `complete`, which say that a successful call
/// changes the tracker's set by its event and a failed one leaves it alone,
/// a tracker made by `new` holds, after any run of calls, the set after the
/// history of its successful calls.
pub proof fn lemma_in_flight_after_push(events: Seq<CallEvent>, e: CallEvent)
    ensures
        in_flight_after(events.push(e)) == apply_event(in_flight_after(events), e),
{
    assert(events.push(e).drop_last() =~= events);
}

/// Tracks in-flight call identifiers for a single service stream.
///
/// The tracker is transport-agnostic so both client and server
/// implementations can use the same policy:
/// - clients allocate the first available `u32` call ID,
/// - servers register incoming IDs and reject duplicates, and
/// - both sides release IDs once the request/response cycle completes.
#[derive(Debug, Clone)]
pub struct InFlightCallIds {
    next_candidate: u32,
    in_flight: BTreeSet<u32>,
}

/// Walking from `start` for `k` steps meets every identifier in `ids` exactly
/// when the walk stops at a free one; such a stopping point is unique.
pub(crate) proof fn lemma_first_free_unique(ids: Set<u32>, start: u32, k1: int, k2: int)
    requires
        0 <= k1 < 0x1_0000_0000,
        0 <= k2 < 0x1_0000_0000,
        !ids.contains(wrap_step(start, k1)),
        walk_taken(ids, start, k1),
        !ids.contains(wrap_step(start, k2)),
        walk_taken(ids, start, k2),
    ensures
        k1 == k2,
{
    if k1 < k2 {
        assert(ids.contains(wrap_step(start, k1)));
    } else if k2 < k1 {
        assert(ids.contains(wrap_step(start, k2)));
    }
}

/// A walk of `2^32` steps visits every `u32`.
pub(crate) proof fn lemma_full_walk_covers(ids: Set<u32>, start: u32)
    requires
        walk_taken(ids, start, 0x1_0000_0000),
    ensures
        all_taken(ids),
{
    assert forall|x: u32| ids.contains(x) by {
        let k: int = if x >= start {
            x - start
        } else {
            x + 0x1_0000_0000 - start
        };
        assert(wrap_step(start, k) == x);
    }
}

/// A free identifier `k0` steps from `start` bounds a first free one.
proof fn lemma_first_free_exists(ids: Set<u32>, start: u32, k0: int)
    requires
        0 <= k0 < 0x1_0000_0000,
        !ids.contains(wrap_step(start, k0)),
    ensures
        exists|k: int|
            0 <= k < 0x1_0000_0000 && !ids.contains(#[trigger] wrap_step(start, k))
                && walk_taken(ids, start, k),
    decreases k0,
{
    if walk_taken(ids, start, k0) {
        assert(!ids.contains(wrap_step(start, k0)));
    } else {
        let j = choose|j: int| 0 <= j < k0 && !ids.contains(#[trigger] wrap_step(start, j));
        lemma_first_free_exists(ids, start, j);
    }
}

/// When every identifier below `start` is taken, the first free identifier
/// met walking upward from `start` is the smallest free identifier.
pub(crate) proof fn lemma_first_free_is_least(ids: Set<u32>, start: u32)
    requires
        forall|x: u32| x < start ==> ids.contains(x),
    ensures
        match first_free_from(ids, start) {
            Some(c) => !ids.contains(c) && forall|x: u32| x < c ==> ids.contains(x),
            None => all_taken(ids),
        },
{
    if !all_taken(ids) {
        let free = choose|x: u32| !ids.contains(x);
        let k0: int = if free >= start {
            free - start
        } else {
            free + 0x1_0000_0000 - start
        };
        assert(wrap_step(start, k0) == free);
        lemma_first_free_exists(ids, start, k0);
        let k = choose|k: int|
            0 <= k < 0x1_0000_0000 && !ids.contains(#[trigger] wrap_step(start, k))
                && walk_taken(ids, start, k);
        let c = wrap_step(start, k);
        if start + k < 0x1_0000_0000 {
            assert forall|x: u32| x < c implies ids.contains(x) by {
                if x >= start {
                    assert(wrap_step(start, x - start) == x);
                }
            }
        }
    }
}

impl InFlightCallIds {
    /// The identifiers currently in flight.
    pub closed spec fn ids(&self) -> Set<u32> {
        self.in_flight@
    }

    /// The tracker's internal consistency: every identifier below the next
    /// candidate is in flight, so the first free identifier is never below it.
    pub closed spec fn wf(&self) -> bool {
        &&& self.in_flight@.finite()
        &&& forall|x: u32| x < self.next_candidate ==> self.in_flight@.contains(x)
    }

    /// A consistent tracker holds finitely many identifiers, so `len`
    /// counts them.
    pub proof fn lemma_ids_finite(&self)
        requires
            self.wf(),
        ensures
            self.ids().finite(),
    {
    }

    /// Create an empty tracker.
    pub fn new() -> (r: Self)
        ensures
            r.wf(),
            r.ids() == Set::<u32>::empty(),
    {
        InFlightCallIds { next_candidate: 0, in_flight: BTreeSet::new() }
    }

    /// Allocate the first available call ID: the smallest `u32` that is not
    /// in flight. Fails with `CallIdExhausted` when every `u32` is in flight.
    pub fn allocate(&mut self) -> (r: Result<u32, RpcError>)
        requires
            old(self).wf(),
        ensures
            final(self).wf(),
            match r {
                Ok(id) => {
                    &&& !old(self).ids().contains(id)
                    &&& forall|x: u32| x < id ==> old(self).ids().contains(x)
                    &&& final(self).ids() == old(self).ids().insert(id)
                    &&& final(self).ids() == apply_event(old(self).ids(), CallEvent::Allocated(id))
                    &&& final(self).ids().len() == old(self).ids().len() + 1
                },
                Err(e) => {
                    &&& e == RpcError::CallIdExhausted
                    &&& all_taken(old(self).ids())
                    &&& final(self).ids() == old(self).ids()
                },
            },
    {
        let found = self.find_first_available_from(self.next_candidate);
        proof {
            lemma_first_free_is_least(self.in_flight@, self.next_candidate);
        }
        let candidate = match found {
            Some(c) => c,
            None => return Err(RpcError::CallIdExhausted),
        };
        self.in_flight.insert(candidate);
        self.refresh_next_candidate_from(candidate.wrapping_add(1), candidate);
        Ok(candidate)
    }

    /// Register an incoming call ID, returning `DuplicateCallId` if it is
    /// already in use.
    pub fn register(&mut self, call_id: u32) -> (r: Result<(), RpcError>)
        requires
            old(self).wf(),
        ensures
            final(self).wf(),
            old(self).ids().contains(call_id) <==> r is Err,
            r matches Err(e) ==> e == RpcError::DuplicateCallId(call_id),
            final(self).ids() == old(self).ids().insert(call_id),
            r is Ok ==> final(self).ids() == apply_event(old(self).ids(), CallEvent::Registered(call_id))
                && final(self).ids().len() == old(self).ids().len() + 1,
            r is Err ==> final(self).ids() == old(self).ids(),
    {
        if !self.in_flight.insert(call_id) {
            return Err(RpcError::DuplicateCallId(call_id));
        }
        if call_id == self.next_candidate {
            self.refresh_next_candidate_from(call_id.wrapping_add(1), call_id);
        }
        Ok(())
    }

    /// Release a call ID once the corresponding exchange has completed.
    ///
    /// Returns `true` if the ID had been in flight.
    pub fn complete(&mut self, call_id: u32) -> (r: bool)
        requires
            old(self).wf(),
        ensures
            final(self).wf(),
            r == old(self).ids().contains(call_id),
            final(self).ids() == old(self).ids().remove(call_id),
            r ==> final(self).ids() == apply_event(old(self).ids(), CallEvent::Completed(call_id))
                && final(self).ids().len() + 1 == old(self).ids().len(),
            !r ==> final(self).ids() == old(self).ids(),
    {
        let removed = self.in_flight.remove(&call_id);
        if removed && call_id < self.next_candidate {
            self.next_candidate = call_id;
        }
        removed
    }

    /// Returns `true` if `call_id` is currently in flight.
    pub fn contains(&self, call_id: u32) -> (r: bool)
        ensures
            r == self.ids().contains(call_id),
    {
        self.in_flight.contains(&call_id)
    }

    /// Number of in-flight IDs currently tracked.
    pub fn len(&self) -> (r: usize)
        ensures
            r == self.ids().len(),
    {
        self.in_flight.len()
    }

    /// Returns `true` when there are no in-flight IDs.
    pub fn is_empty(&self) -> (r: bool)
        ensures
            r == (self.ids() == Set::<u32>::empty()),
            self.wf() ==> (r <==> self.ids().len() == 0),
    {
        let r = self.in_flight.is_empty();
        proof {
            if !r {
                assert(self.in_flight@ != Set::<u32>::empty());
            }
        }
        r
    }

    /// The first identifier not in flight met while walking upward from
    /// `start`, wrapping around; `None` when every identifier is in flight.
    fn find_first_available_from(&self, start: u32) -> (r: Option<u32>)
        ensures
            r == first_free_from(self.in_flight@, start),
    {
        let mut candidate = start;
        let mut steps: u64 = 0;
        loop
            invariant
                0 <= steps < 0x1_0000_0000,
                candidate == wrap_step(start, steps as int),
                walk_taken(self.in_flight@, start, steps as int),
            decreases 0x1_0000_0000 - steps,
        {
            if !self.in_flight.contains(&candidate) {
                proof {
                    assert(!all_taken(self.in_flight@));
                    let k = choose|k: int|
                        0 <= k < 0x1_0000_0000 && !self.in_flight@.contains(
                            #[trigger] wrap_step(start, k),
                        ) && walk_taken(self.in_flight@, start, k);
                    lemma_first_free_unique(self.in_flight@, start, k, steps as int);
                }
                return Some(candidate);
            }
            proof {
                assert forall|k: int| 0 <= k < steps + 1 implies self.in_flight@.contains(
                    #[trigger] wrap_step(start, k),
                ) by {
                    if k == steps {
                        assert(wrap_step(start, k) == candidate);
                    }
                }
            }
            candidate = candidate.wrapping_add(1);
            steps = steps + 1;
            assert(candidate == wrap_step(start, steps as int));
            if candidate == start {
                proof {
                    assert(steps == 0x1_0000_0000) by {
                        if steps < 0x1_0000_0000 {
                            assert(wrap_step(start, steps as int) != start);
                        }
                    }
                    lemma_full_walk_covers(self.in_flight@, start);
                }
                return None;
            }
        }
    }

    /// Move the next candidate to the first identifier not in flight at or
    /// after `start`, given that `start` directly follows `taken`, which is in
    /// flight, and every identifier below `taken` is in flight too.
    fn refresh_next_candidate_from(&mut self, start: u32, taken: u32)
        requires
            old(self).in_flight@.finite(),
            old(self).in_flight@.contains(taken),
            start == wrap_step(taken, 1),
            forall|x: u32| x < taken ==> old(self).in_flight@.contains(x),
        ensures
            final(self).wf(),
            final(self).in_flight@ == old(self).in_flight@,
    {
        let next = match self.find_first_available_from(start) {
            Some(c) => c,
            None => start,
        };
        proof {
            assert forall|x: u32| x < start implies self.in_flight@.contains(x) by {
                assert(x <= taken);
            }
            lemma_first_free_is_least(self.in_flight@, start);
        }
        self.next_candidate = next;
    }
}

} // verus!
