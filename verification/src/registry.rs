//! Pending-callback registries for non-blocking PMIx requests.
//!
//! A non-blocking call hands PMIx a C callback and an opaque `cbdata`
//! pointer. The library never passes a pointer to a Rust closure: it
//! registers the caller's callback under a fresh request id, passes the id
//! encoded as a non-null `cbdata`, and, when PMIx calls back, decodes the id
//! and takes the callback out of the registry, so that each callback runs at
//! most once. When PMIx rejects the request at once, the callback is
//! withdrawn and never runs.

use vstd::prelude::*;
use std::collections::HashMap;
use crate::status::{status_code, PmixStatus};

verus! {

/// The `cbdata` value that carries request id `id`: the id shifted left by
/// two bits, so that it is non-null and suitably aligned for a pointer.
pub open spec fn cbdata_of(id: nat) -> nat {
    id * 4
}

/// The request id that a `cbdata` value carries.
pub open spec fn id_of_cbdata(cbdata: nat) -> nat {
    cbdata / 4
}

/// Encode a request id as the `cbdata` passed to PMIx.
pub fn encode_req_id(id: usize) -> (cbdata: usize)
    requires
        id <= usize::MAX / 4,
    ensures
        cbdata == cbdata_of(id as nat),
{
    id * 4
}

/// Decode the request id carried by a `cbdata` received from PMIx.
pub fn decode_req_id(cbdata: usize) -> (id: usize)
    ensures
        id == id_of_cbdata(cbdata as nat),
{
    assert(cbdata >> 2 == cbdata / 4) by (bit_vector);
    cbdata >> 2
}

/// Encoding then decoding gives the id back, and a non-zero id never
/// encodes to a null `cbdata`.
pub proof fn lemma_cbdata_roundtrip(id: nat)
    ensures
        id_of_cbdata(cbdata_of(id)) == id,
        id > 0 ==> cbdata_of(id) != 0,
{
}

/// The pending callbacks after a PMIx completion arrives with `cbdata`:
/// a null `cbdata` changes nothing; otherwise the callback registered under
/// the carried id, if any, leaves the registry.
pub open spec fn after_completion<C>(pending: Map<usize, C>, cbdata: nat) -> Map<usize, C> {
    if cbdata == 0 {
        pending
    } else {
        pending.remove(id_of_cbdata(cbdata) as usize)
    }
}

/// The callback that a completion with `cbdata` runs, if any.
pub open spec fn completed_callback<C>(pending: Map<usize, C>, cbdata: nat) -> Option<C> {
    if cbdata != 0 && cbdata / 4 <= usize::MAX && pending.contains_key(id_of_cbdata(cbdata) as usize) {
        Some(pending[id_of_cbdata(cbdata) as usize])
    } else {
        None
    }
}

/// The pending callbacks after PMIx answers the submission of request `id`
/// with `status`: accepted (a non-negative code) keeps the callback for the
/// completion; rejected withdraws it.
pub open spec fn after_submission<C>(pending: Map<usize, C>, id: usize, status: PmixStatus) -> Map<usize, C> {
    if status_code(status) >= 0 {
        pending
    } else {
        pending.remove(id)
    }
}

/// Callbacks of one kind of non-blocking request, keyed by request id,
/// together with the counter that issues the ids.
pub struct CallbackRegistry<C> {
    seq: usize,
    pending: HashMap<usize, C>,
}

impl<C> CallbackRegistry<C> {
    /// The last request id issued (0 before the first).
    pub closed spec fn last_id(&self) -> usize {
        self.seq
    }

    /// The callbacks waiting for their completion, by request id.
    pub closed spec fn pending(&self) -> Map<usize, C> {
        self.pending@
    }

    /// Every pending id is at most the last id issued, so the next id
    /// issued is never pending.
    #[verifier::type_invariant]
    closed spec fn ids_issued(&self) -> bool {
        forall|id: usize| #[trigger] self.pending@.contains_key(id) ==> id <= self.seq
    }

    /// An empty registry whose counter has issued no id.
    pub fn new() -> (r: Self)
        ensures
            r.pending() == Map::<usize, C>::empty(),
            r.last_id() == 0,
    {
        CallbackRegistry { seq: 0, pending: HashMap::new() }
    }

    /// The last request id issued (0 before the first).
    pub fn seq(&self) -> (s: usize)
        ensures
            s == self.last_id(),
    {
        self.seq
    }

    /// Issue the next request id: the counter moves up by one. The id is
    /// not pending.
    pub fn next_request_id(&mut self) -> (id: usize)
        requires
            old(self).last_id() < usize::MAX,
        ensures
            id == old(self).last_id() + 1,
            final(self).last_id() == id,
            final(self).pending() == old(self).pending(),
            !old(self).pending().contains_key(id),
    {
        proof {
            use_type_invariant(&*self);
        }
        self.seq = self.seq + 1;
        self.seq
    }

    /// Register a callback under a freshly issued request id and return the
    /// id, which no other pending callback holds.
    pub fn register(&mut self, callback: C) -> (id: usize)
        requires
            old(self).last_id() < usize::MAX,
        ensures
            id == old(self).last_id() + 1,
            final(self).last_id() == id,
            !old(self).pending().contains_key(id),
            final(self).pending() == old(self).pending().insert(id, callback),
    {
        let id = self.next_request_id();
        proof {
            use_type_invariant(&*self);
        }
        let mut pending = HashMap::new();
        std::mem::swap(&mut pending, &mut self.pending);
        pending.insert(id, callback);
        self.pending = pending;
        id
    }

    /// Put a callback under `id`, returning the one it replaces. An id
    /// above the counter moves the counter up to it, so that no id issued
    /// later collides with it.
    pub fn insert(&mut self, id: usize, callback: C) -> (prev: Option<C>)
        ensures
            final(self).pending() == old(self).pending().insert(id, callback),
            final(self).last_id() == (if id > old(self).last_id() {
                id
            } else {
                old(self).last_id()
            }),
            prev == (if old(self).pending().contains_key(id) {
                Some(old(self).pending()[id])
            } else {
                None
            }),
    {
        proof {
            use_type_invariant(&*self);
        }
        if id > self.seq {
            self.seq = id;
        }
        let mut pending = HashMap::new();
        std::mem::swap(&mut pending, &mut self.pending);
        let prev = pending.insert(id, callback);
        self.pending = pending;
        prev
    }

    /// Take the callback registered under `id` out of the registry.
    pub fn remove(&mut self, id: usize) -> (r: Option<C>)
        ensures
            final(self).pending() == old(self).pending().remove(id),
            final(self).last_id() == old(self).last_id(),
            r == (if old(self).pending().contains_key(id) {
                Some(old(self).pending()[id])
            } else {
                None
            }),
    {
        proof {
            use_type_invariant(&*self);
        }
        let mut pending = HashMap::new();
        std::mem::swap(&mut pending, &mut self.pending);
        let r = pending.remove(&id);
        self.pending = pending;
        r
    }

    /// Whether a callback is registered under `id`.
    pub fn contains_key(&self, id: usize) -> (b: bool)
        ensures
            b == self.pending().contains_key(id),
    {
        self.pending.contains_key(&id)
    }

    /// The callback registered under `id`, if any.
    pub fn get(&self, id: usize) -> (r: Option<&C>)
        ensures
            r == (if self.pending().contains_key(id) {
                Some(&self.pending()[id])
            } else {
                None
            }),
    {
        self.pending.get(&id)
    }

    /// The number of pending callbacks.
    pub fn len(&self) -> (n: usize)
        ensures
            n == self.pending().len(),
    {
        self.pending.len()
    }

    /// Whether no callback is pending.
    pub fn is_empty(&self) -> (b: bool)
        ensures
            b == (self.pending().len() == 0),
    {
        self.pending.len() == 0
    }

    /// Settle the submission of request `id` with PMIx's immediate answer:
    /// on success the callback stays for the completion and `Ok(())` is
    /// returned; on failure the callback is withdrawn (it will never run)
    /// and the status is returned as the error.
    pub fn settle_submission(&mut self, id: usize, status: PmixStatus) -> (r: Result<(), PmixStatus>)
        ensures
            final(self).pending() == after_submission(old(self).pending(), id, status),
            final(self).last_id() == old(self).last_id(),
            r is Ok <==> status_code(status) >= 0,
            r matches Err(e) ==> e == status,
    {
        if status.is_success() {
            Ok(())
        } else {
            let _ = self.remove(id);
            Err(status)
        }
    }

    /// Take the callback that a PMIx completion with `cbdata` must run: none
    /// for a null `cbdata` or an id with no pending callback; otherwise the
    /// registered callback, which leaves the registry.
    pub fn take_for_completion(&mut self, cbdata: usize) -> (r: Option<C>)
        ensures
            final(self).pending() == after_completion(old(self).pending(), cbdata as nat),
            r == completed_callback(old(self).pending(), cbdata as nat),
            final(self).last_id() == old(self).last_id(),
    {
        if cbdata == 0 {
            None
        } else {
            let id = decode_req_id(cbdata);
            self.remove(id)
        }
    }
}

/// A submission that PMIx refuses leaves the pending callbacks as they were
/// before the callback was registered.
pub proof fn lemma_rejected_submission_rolls_back<C>(
    pending: Map<usize, C>,
    id: usize,
    cb: C,
    status: PmixStatus,
)
    requires
        !pending.contains_key(id),
        status_code(status) < 0,
    ensures
        after_submission(pending.insert(id, cb), id, status) == pending,
{
    assert(pending.insert(id, cb).remove(id) =~= pending);
}

/// A callback registered and then completed through its encoded `cbdata`
/// runs exactly once: the first completion returns it and removes it, a
/// second completion with the same `cbdata` finds nothing, and no other
/// pending callback is touched.
pub proof fn lemma_registered_callback_runs_once<C>(pending: Map<usize, C>, id: usize, cb: C)
    requires
        1 <= id <= usize::MAX / 4,
    ensures
        completed_callback(pending.insert(id, cb), cbdata_of(id as nat)) == Some(cb),
        after_completion(pending.insert(id, cb), cbdata_of(id as nat)) == pending.remove(id),
        completed_callback(
            after_completion(pending.insert(id, cb), cbdata_of(id as nat)),
            cbdata_of(id as nat),
        ) is None,
        forall|other: usize|
            other != id ==> (#[trigger] after_completion(pending.insert(id, cb), cbdata_of(id as nat)).contains_key(other)
                <==> pending.contains_key(other)),
{
    assert(id_of_cbdata(cbdata_of(id as nat)) == id);
    assert(pending.insert(id, cb).remove(id) =~= pending.remove(id));
}

/// A rejected submission leaves no callback behind for its id, so the
/// callback can never run; an accepted one keeps it for the completion.
pub proof fn lemma_rejected_submission_never_runs<C>(
    pending: Map<usize, C>,
    id: usize,
    cb: C,
    status: PmixStatus,
)
    requires
        1 <= id <= usize::MAX / 4,
    ensures
        status_code(status) < 0 ==> completed_callback(
            after_submission(pending.insert(id, cb), id, status),
            cbdata_of(id as nat),
        ) is None,
        status_code(status) >= 0 ==> completed_callback(
            after_submission(pending.insert(id, cb), id, status),
            cbdata_of(id as nat),
        ) == Some(cb),
{
    assert(id_of_cbdata(cbdata_of(id as nat)) == id);
}

} // verus!
