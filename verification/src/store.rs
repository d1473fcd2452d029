//! The correlation store: requests awaiting a bus response.
//!
//! Every published request registers its correlation id here together with a
//! single-assignment response slot. The dispatch loop resolves a slot at most
//! once when the matching response arrives; the waiting caller then takes the
//! response out, or — when its wait expires first — removes the abandoned
//! entry so the store cannot grow without bound.

use std::collections::HashMap;

use vstd::prelude::*;

use crate::error::{ErrorKind, GatewayError};
use crate::value::Value;

verus! {

broadcast use vstd::std_specs::hash::group_hash_axioms;

/// One response slot: empty while the request is in flight, filled exactly
/// once when the matching response is resolved.
pub type Slot = Option<Value>;

/// The requests whose bus responses are still awaited, keyed by correlation
/// id. Its mathematical value is the map from each registered id to its
/// response slot.
pub struct InFlightRequests {
    map: HashMap<u128, Slot>,
}

impl View for InFlightRequests {
    type V = Map<u128, Slot>;

    closed spec fn view(&self) -> Map<u128, Slot> {
        self.map@
    }
}

/// What the store becomes when a response for `id` is resolved: only a
/// registered, still-empty slot is filled; any other store is unchanged.
pub open spec fn resolve_result(m: Map<u128, Slot>, id: u128, response: Value) -> Map<u128, Slot> {
    if m.contains_key(id) && m[id] is None {
        m.insert(id, Some(response))
    } else {
        m
    }
}

/// Whether resolving `id` finds a waiting request: it does exactly when `id`
/// is registered and its slot is still empty.
pub open spec fn resolve_found(m: Map<u128, Slot>, id: u128) -> bool {
    m.contains_key(id) && m[id] is None
}

impl InFlightRequests {
    /// An empty store.
    pub fn new() -> (r: InFlightRequests)
        ensures
            r@ == Map::<u128, Slot>::empty(),
    {
        InFlightRequests { map: HashMap::new() }
    }

    /// Registers a fresh request under `id` with an empty response slot.
    /// Fails, leaving the store unchanged, only if `id` is already
    /// registered — an internal invariant violation given how ids are
    /// generated.
    pub fn save_request(&mut self, id: u128) -> (r: Result<(), GatewayError>)
        ensures
            match r {
                Ok(()) => !old(self)@.contains_key(id) && final(self)@ == old(self)@.insert(
                    id,
                    None::<Value>,
                ),
                Err(e) => old(self)@.contains_key(id) && final(self)@ == old(self)@ && e.kind
                    == ErrorKind::Internal,
            },
    {
        if self.map.contains_key(&id) {
            Err(
                GatewayError::new(
                    ErrorKind::Internal,
                    String::from_str("correlation id is already registered"),
                ),
            )
        } else {
            self.map.insert(id, None);
            Ok(())
        }
    }

    /// Resolves the response for `id`: delivers `response` into the slot if
    /// `id` is registered and not yet resolved, and reports whether a waiting
    /// request was found. Resolving an unknown or already-resolved id is a
    /// no-op.
    pub fn finish_request(&mut self, id: u128, response: Value) -> (found: bool)
        ensures
            final(self)@ == resolve_result(old(self)@, id, response),
            found == resolve_found(old(self)@, id),
    {
        let waiting = match self.map.get(&id) {
            Some(slot) => slot.is_none(),
            None => false,
        };
        if waiting {
            self.map.insert(id, Some(response));
        }
        waiting
    }

    /// Takes the resolved response for `id` out of the store, removing the
    /// entry, so a response is read at most once. An entry whose response
    /// has not arrived stays registered, and an unknown id is a no-op; both
    /// return `None`.
    pub fn take_response(&mut self, id: u128) -> (r: Option<Value>)
        ensures
            if old(self)@.contains_key(id) && old(self)@[id] is Some {
                &&& final(self)@ == old(self)@.remove(id)
                &&& r == old(self)@[id]
            } else {
                &&& final(self)@ == old(self)@
                &&& r is None
            },
    {
        let filled = match self.map.get(&id) {
            Some(slot) => slot.is_some(),
            None => false,
        };
        if filled {
            match self.map.remove(&id) {
                Some(slot) => slot,
                None => None,
            }
        } else {
            None
        }
    }

    /// Removes the entry for `id` without delivering anything: the timeout
    /// path reclaims its abandoned slot this way.
    pub fn remove_request(&mut self, id: u128)
        ensures
            final(self)@ == old(self)@.remove(id),
    {
        self.map.remove(&id);
    }

    /// How many requests are registered.
    pub fn len(&self) -> (r: usize)
        ensures
            r == self@.len(),
    {
        self.map.len()
    }
}

/// Registering an id and then resolving it delivers exactly the resolved
/// response to that id's slot, exactly once: the resolution is found, the
/// slot then holds the response, and a second resolution of the same id
/// finds nothing and changes nothing.
pub proof fn lemma_resolve_delivers_exactly_once(
    m: Map<u128, Slot>,
    id: u128,
    response: Value,
    again: Value,
)
    requires
        !m.contains_key(id),
    ensures
        ({
            let registered = m.insert(id, None);
            let resolved = resolve_result(registered, id, response);
            &&& resolve_found(registered, id)
            &&& resolved[id] == Some(response)
            &&& !resolve_found(resolved, id)
            &&& resolve_result(resolved, id, again) == resolved
        }),
{
}

/// Resolving an id that is not registered — never registered, already taken,
/// or removed by the timeout path — finds nothing and leaves the store
/// unchanged.
pub proof fn lemma_late_response_is_noop(m: Map<u128, Slot>, id: u128, response: Value)
    requires
        !m.contains_key(id),
    ensures
        resolve_result(m, id, response) == m,
        !resolve_found(m, id),
{
}

/// The store after a sequence of resolutions is applied in order, first to
/// last.
pub open spec fn apply_resolutions(m: Map<u128, Slot>, rs: Seq<(u128, Value)>) -> Map<u128, Slot>
    decreases rs.len(),
{
    if rs.len() == 0 {
        m
    } else {
        apply_resolutions(resolve_result(m, rs[0].0, rs[0].1), rs.subrange(1, rs.len() as int))
    }
}

/// A sequence of resolutions never touches an id that none of them names.
pub proof fn lemma_resolutions_preserve_other_ids(
    m: Map<u128, Slot>,
    rs: Seq<(u128, Value)>,
    k: u128,
)
    requires
        forall|i: int| 0 <= i < rs.len() ==> (#[trigger] rs[i]).0 != k,
    ensures
        apply_resolutions(m, rs).contains_key(k) == m.contains_key(k),
        m.contains_key(k) ==> apply_resolutions(m, rs)[k] == m[k],
    decreases rs.len(),
{
    if rs.len() > 0 {
        let m1 = resolve_result(m, rs[0].0, rs[0].1);
        let rest = rs.subrange(1, rs.len() as int);
        assert(forall|i: int| 0 <= i < rest.len() ==> #[trigger] rest[i] == rs[i + 1]);
        lemma_resolutions_preserve_other_ids(m1, rest, k);
    }
}

/// Concurrent requests never cross-deliver: when any number of requests with
/// distinct correlation ids are all registered and waiting, resolving them
/// in an arbitrary order fills each id's slot with exactly its own response.
pub proof fn lemma_interleaved_resolutions_deliver(m: Map<u128, Slot>, rs: Seq<(u128, Value)>)
    requires
        forall|i: int, j: int|
            0 <= i < rs.len() && 0 <= j < rs.len() && i != j ==> rs[i].0 != rs[j].0,
        forall|i: int| 0 <= i < rs.len() ==> resolve_found(m, (#[trigger] rs[i]).0),
    ensures
        forall|i: int|
            0 <= i < rs.len() ==> {
                &&& apply_resolutions(m, rs).contains_key((#[trigger] rs[i]).0)
                &&& apply_resolutions(m, rs)[rs[i].0] == Some(rs[i].1)
            },
    decreases rs.len(),
{
    if rs.len() > 0 {
        let id0 = rs[0].0;
        let v0 = rs[0].1;
        let m1 = resolve_result(m, id0, v0);
        let rest = rs.subrange(1, rs.len() as int);
        assert(forall|i: int| 0 <= i < rest.len() ==> #[trigger] rest[i] == rs[i + 1]);
        lemma_interleaved_resolutions_deliver(m1, rest);
        assert(forall|i: int| 0 <= i < rest.len() ==> (#[trigger] rest[i]).0 != id0);
        lemma_resolutions_preserve_other_ids(m1, rest, id0);
        assert(m1.contains_key(id0) && m1[id0] == Some(v0));
        assert(apply_resolutions(m, rs) == apply_resolutions(m1, rest));
        assert forall|i: int| 0 <= i < rs.len() implies {
            &&& apply_resolutions(m, rs).contains_key((#[trigger] rs[i]).0)
            &&& apply_resolutions(m, rs)[rs[i].0] == Some(rs[i].1)
        } by {
            if i > 0 {
                assert(rest[i - 1] == rs[i]);
                assert(apply_resolutions(m1, rest).contains_key(rest[i - 1].0));
            }
        }
    }
}

/// Resolving one id never touches any other id's entry.
pub proof fn lemma_resolve_frames_other_ids(m: Map<u128, Slot>, id: u128, response: Value, other: u128)
    requires
        other != id,
    ensures
        resolve_result(m, id, response).contains_key(other) == m.contains_key(other),
        m.contains_key(other) ==> resolve_result(m, id, response)[other] == m[other],
{
}

} // verus!
