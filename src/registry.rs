use std::collections::HashMap;
use vstd::prelude::*;

use crate::request::{BrokerRequest, ListenKind};

verus! {

broadcast use vstd::std_specs::hash::group_hash_axioms;

/// The in-flight requests, keyed by the call id the broker gave them, and
/// the counter those ids come from.
pub struct RequestRegistry {
    last_id: u64,
    requests: HashMap<u64, BrokerRequest>,
}

/// What `get_and_consume` does: the stored request comes back, and leaves
/// the registry unless it is an active listen.
pub open spec fn consume_post(
    before: Map<u64, BrokerRequest>,
    after: Map<u64, BrokerRequest>,
    id: u64,
    r: Option<BrokerRequest>,
) -> bool {
    if before.contains_key(id) {
        &&& r == Some(before[id])
        &&& after == (if before[id].is_kept_spec() {
            before
        } else {
            before.remove(id)
        })
    } else {
        r.is_none() && after == before
    }
}

/// What `allocate_id` does: the counter moves up by one and the new value is
/// handed out.
pub open spec fn allocate_post(before: u64, after: u64, id: u64) -> bool {
    id == before + 1 && after == id
}

impl RequestRegistry {
    pub closed spec fn view(&self) -> Map<u64, BrokerRequest> {
        self.requests@
    }

    /// The id handed out last (0 before the first).
    pub closed spec fn last_id_spec(&self) -> u64 {
        self.last_id
    }

    /// Every stored request has an id that was handed out.
    pub open spec fn wf(&self) -> bool {
        forall|k: u64| #[trigger] self@.contains_key(k) ==> k <= self.last_id_spec()
    }

    /// An empty registry whose next id is `start + 1`.
    pub fn new(start: u64) -> (r: RequestRegistry)
        ensures
            r.wf(),
            r@ == Map::<u64, BrokerRequest>::empty(),
            r.last_id_spec() == start,
    {
        RequestRegistry { last_id: start, requests: HashMap::new() }
    }

    pub fn last_id(&self) -> (r: u64)
        ensures
            r == self.last_id_spec(),
    {
        self.last_id
    }

    /// Whether another id can be handed out.
    pub fn can_allocate(&self) -> (r: bool)
        ensures
            r == (self.last_id_spec() < u64::MAX),
    {
        self.last_id < u64::MAX
    }

    /// Hands out a new id, greater than every id handed out before.
    pub fn allocate_id(&mut self) -> (r: u64)
        requires
            old(self).last_id_spec() < u64::MAX,
            old(self).wf(),
        ensures
            allocate_post(old(self).last_id_spec(), final(self).last_id_spec(), r),
            !old(self)@.contains_key(r),
            final(self)@ == old(self)@,
            final(self).wf(),
    {
        self.last_id = self.last_id + 1;
        self.last_id
    }

    /// Stores `req` under `id`.
    pub fn insert(&mut self, id: u64, req: BrokerRequest)
        requires
            old(self).wf(),
            id <= old(self).last_id_spec(),
        ensures
            final(self)@ == old(self)@.insert(id, req),
            final(self).last_id_spec() == old(self).last_id_spec(),
            final(self).wf(),
    {
        self.requests.insert(id, req);
    }

    /// Whether a request is stored under `id`.
    pub fn contains(&self, id: u64) -> (r: bool)
        ensures
            r == self@.contains_key(id),
    {
        self.requests.contains_key(&id)
    }

    /// The request stored under `id`; a plain call or an unlisten leaves the
    /// registry with it, an active listen stays.
    pub fn get_and_consume(&mut self, id: u64) -> (r: Option<BrokerRequest>)
        requires
            old(self).wf(),
        ensures
            consume_post(old(self)@, final(self)@, id, r),
            final(self).last_id_spec() == old(self).last_id_spec(),
            final(self).wf(),
    {
        let found = match self.requests.get(&id) {
            Some(v) => Some(v.duplicate()),
            None => None,
        };
        match found {
            Some(req) => {
                if req.rpc.listen != ListenKind::Listen {
                    self.requests.remove(&id);
                    assert(self@ =~= old(self)@.remove(id));
                }
                Some(req)
            },
            None => None,
        }
    }

    /// Records that the acknowledgement of the subscription under `id` was
    /// delivered; the entry stays.
    pub fn mark_subscription_processed(&mut self, id: u64)
        requires
            old(self).wf(),
        ensures
            final(self)@ == (if old(self)@.contains_key(id) {
                old(self)@.insert(id, BrokerRequest { subscription_processed: true, ..old(self)@[id] })
            } else {
                old(self)@
            }),
            final(self).last_id_spec() == old(self).last_id_spec(),
            final(self).wf(),
    {
        let found = match self.requests.get(&id) {
            Some(v) => Some(v.duplicate()),
            None => None,
        };
        if let Some(mut req) = found {
            req.subscription_processed = true;
            self.requests.insert(id, req);
        }
    }

    /// Drops the request under `id`, if any.
    pub fn remove(&mut self, id: u64) -> (r: Option<BrokerRequest>)
        requires
            old(self).wf(),
        ensures
            final(self)@ == old(self)@.remove(id),
            r == (if old(self)@.contains_key(id) {
                Some(old(self)@[id])
            } else {
                None
            }),
            final(self).last_id_spec() == old(self).last_id_spec(),
            final(self).wf(),
    {
        let r = self.requests.remove(&id);
        assert(self@ =~= old(self)@.remove(id));
        r
    }
}

/// A counter that hands out ids, each greater than every one before.
pub struct IdCounter {
    last: u64,
}

impl IdCounter {
    /// The id handed out last (`start` before the first).
    pub closed spec fn last_spec(&self) -> u64 {
        self.last
    }

    /// A counter whose first id is `start + 1`.
    pub fn new(start: u64) -> (r: IdCounter)
        ensures
            r.last_spec() == start,
    {
        IdCounter { last: start }
    }

    /// Whether another id can be handed out.
    pub fn can_allocate(&self) -> (r: bool)
        ensures
            r == (self.last_spec() < u64::MAX),
    {
        self.last < u64::MAX
    }

    /// The next id.
    pub fn next_id(&mut self) -> (r: u64)
        requires
            old(self).last_spec() < u64::MAX,
        ensures
            allocate_post(old(self).last_spec(), final(self).last_spec(), r),
    {
        self.last = self.last + 1;
        self.last
    }
}

/// Ids come out strictly increasing: of two allocations one after the other,
/// the later id is the larger.
pub proof fn lemma_ids_increase(a0: u64, a1: u64, a2: u64, first: u64, second: u64)
    requires
        allocate_post(a0, a1, first),
        allocate_post(a1, a2, second),
    ensures
        first < second,
{
}

/// A request that is not an active listen is handed out once: the first
/// `get_and_consume` finds it, the next one finds nothing.
pub proof fn lemma_single_shot(
    m0: Map<u64, BrokerRequest>,
    m1: Map<u64, BrokerRequest>,
    m2: Map<u64, BrokerRequest>,
    id: u64,
    first: Option<BrokerRequest>,
    second: Option<BrokerRequest>,
)
    requires
        m0.contains_key(id),
        !m0[id].is_kept_spec(),
        consume_post(m0, m1, id, first),
        consume_post(m1, m2, id, second),
    ensures
        first == Some(m0[id]),
        second.is_none(),
{
}

} // verus!
