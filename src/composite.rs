use vstd::prelude::*;

verus! {

/// How long a composite request is remembered, in milliseconds.
pub const COMPOSITE_TIMEOUT_MS: u64 = 8000;

/// How often the table is swept, in milliseconds.
pub const COMPOSITE_SWEEP_INTERVAL_MS: u64 = 3000;

/// A request whose parameters embed a `response` object, remembered so that
/// the response side can use it.
#[derive(Debug)]
pub struct CompositeRequest {
    pub call_id: u64,
    /// The embedded `response` object, as JSON text.
    pub response: String,
    /// When the request was sent, in milliseconds.
    pub created_ms: u64,
}

/// Whether an entry made at `created` is older than the timeout at `now`.
pub open spec fn expired(created: u64, now: u64) -> bool {
    now >= created && now - created > COMPOSITE_TIMEOUT_MS
}

/// The entries of `s` that have not expired at `now`, in order.
pub open spec fn live(s: Seq<CompositeRequest>, now: u64) -> Seq<CompositeRequest>
    decreases s.len(),
{
    if s.len() == 0 {
        s
    } else if !expired(s.last().created_ms, now) {
        live(s.drop_last(), now).push(s.last())
    } else {
        live(s.drop_last(), now)
    }
}

/// The entries of `s` with another call id, in order.
pub open spec fn without_id(s: Seq<CompositeRequest>, id: u64) -> Seq<CompositeRequest>
    decreases s.len(),
{
    if s.len() == 0 {
        s
    } else if s.last().call_id != id {
        without_id(s.drop_last(), id).push(s.last())
    } else {
        without_id(s.drop_last(), id)
    }
}

/// The entry for `id`, if the table holds one.
pub open spec fn entry_for(s: Seq<CompositeRequest>, id: u64) -> Option<CompositeRequest>
    decreases s.len(),
{
    if s.len() == 0 {
        None
    } else if s.last().call_id == id {
        Some(s.last())
    } else {
        entry_for(s.drop_last(), id)
    }
}

/// Whether `s` has at most one entry per call id.
pub open spec fn ids_unique(s: Seq<CompositeRequest>) -> bool {
    forall|i: int, j: int| 0 <= i < j < s.len() ==> (#[trigger] s[i]).call_id != (#[trigger] s[j]).call_id
}

proof fn lemma_without_id(s: Seq<CompositeRequest>, id: u64)
    ensures
        entry_for(without_id(s, id), id).is_none(),
        forall|k: u64| k != id ==> entry_for(#[trigger] without_id(s, id), k) == entry_for(s, k),
        forall|i: int|
            0 <= i < without_id(s, id).len() ==> exists|j: int|
                0 <= j < s.len() && #[trigger] without_id(s, id)[i] == s[j],
        forall|i: int|
            0 <= i < without_id(s, id).len() ==> (#[trigger] without_id(s, id)[i]).call_id != id,
    decreases s.len(),
{
    if s.len() > 0 {
        lemma_without_id(s.drop_last(), id);
        let t = without_id(s.drop_last(), id);
        if s.last().call_id != id {
            assert(without_id(s, id).drop_last() =~= t);
            assert(without_id(s, id).last() == s.last());
        }
        assert forall|k: u64| k != id implies entry_for(#[trigger] without_id(s, id), k)
            == entry_for(s, k) by {
            assert(entry_for(t, k) == entry_for(s.drop_last(), k));
        }
        assert forall|i: int| 0 <= i < without_id(s, id).len() implies exists|j: int|
            0 <= j < s.len() && #[trigger] without_id(s, id)[i] == s[j] by {
            if i < t.len() {
                assert(without_id(s, id)[i] == t[i]);
                let j = choose|j: int| 0 <= j < s.drop_last().len() && t[i] == s.drop_last()[j];
                assert(s.drop_last()[j] == s[j]);
            } else {
                assert(without_id(s, id)[i] == s[s.len() - 1]);
            }
        }
        assert forall|i: int| 0 <= i < without_id(s, id).len() implies (#[trigger] without_id(
            s,
            id,
        )[i]).call_id != id by {
            if i < t.len() {
                assert(without_id(s, id)[i] == t[i]);
            }
        }
    }
}

proof fn lemma_live(s: Seq<CompositeRequest>, now: u64, id: u64)
    requires
        ids_unique(s),
    ensures
        entry_for(live(s, now), id) == (match entry_for(s, id) {
            Some(e) => if expired(e.created_ms, now) {
                None
            } else {
                Some(e)
            },
            None => None,
        }),
    decreases s.len(),
{
    if s.len() > 0 {
        let d = s.drop_last();
        assert(ids_unique(d)) by {
            assert forall|i: int, j: int| 0 <= i < j < d.len() implies (#[trigger] d[i]).call_id
                != (#[trigger] d[j]).call_id by {
                assert(d[i] == s[i] && d[j] == s[j]);
            }
        }
        lemma_live(d, now, id);
        if !expired(s.last().created_ms, now) {
            assert(live(s, now).drop_last() =~= live(d, now));
            assert(live(s, now).last() == s.last());
        }
        if s.last().call_id == id {
            lemma_entry_absent(d, id, s.len() - 1, s);
        }
    }
}

proof fn lemma_entry_absent(d: Seq<CompositeRequest>, id: u64, n: int, s: Seq<CompositeRequest>)
    requires
        ids_unique(s),
        s.len() > 0,
        n == s.len() - 1,
        d == s.drop_last(),
        s[n].call_id == id,
    ensures
        entry_for(d, id).is_none(),
{
    let j = lemma_entry_index(d, id);
    if entry_for(d, id).is_some() {
        assert(d[j] == s[j]);
        assert(s[j].call_id != s[n].call_id);
    }
}

proof fn lemma_entry_index(d: Seq<CompositeRequest>, id: u64) -> (j: int)
    ensures
        entry_for(d, id).is_some() ==> 0 <= j < d.len() && d[j] == entry_for(d, id)->0
            && d[j].call_id == id,
    decreases d.len(),
{
    if d.len() == 0 {
        0
    } else if d.last().call_id == id {
        d.len() - 1
    } else {
        let j = lemma_entry_index(d.drop_last(), id);
        if entry_for(d, id).is_some() {
            assert(d[j] == d.drop_last()[j]);
        }
        j
    }
}

/// The composite requests in flight, at most one per call id.
pub struct CompositeTable {
    entries: Vec<CompositeRequest>,
}

impl CompositeTable {
    pub closed spec fn view(&self) -> Seq<CompositeRequest> {
        self.entries@
    }

    pub open spec fn wf(&self) -> bool {
        ids_unique(self@)
    }

    pub fn new() -> (r: CompositeTable)
        ensures
            r.wf(),
            r@ == Seq::<CompositeRequest>::empty(),
    {
        CompositeTable { entries: Vec::new() }
    }

    pub fn len(&self) -> (r: usize)
        ensures
            r == self@.len(),
    {
        self.entries.len()
    }

    /// Removes the entry for `id` and returns its `response` object.
    pub fn take(&mut self, id: u64) -> (r: Option<String>)
        requires
            old(self).wf(),
        ensures
            final(self).wf(),
            final(self)@ == without_id(old(self)@, id),
            match (r, entry_for(old(self)@, id)) {
                (Some(x), Some(e)) => x == e.response,
                (None, None) => true,
                _ => false,
            },
    {
        let ghost s = self@;
        let mut found: Option<String> = None;
        let mut kept: Vec<CompositeRequest> = Vec::new();
        let mut i: usize = 0;
        while i < self.entries.len()
            invariant
                s == self@,
                ids_unique(s),
                i <= s.len(),
                kept@ == without_id(s.subrange(0, i as int), id),
                match (found, entry_for(s.subrange(0, i as int), id)) {
                    (Some(x), Some(e)) => x == e.response,
                    (None, None) => true,
                    _ => false,
                },
            decreases s.len() - i,
        {
            assert(s.subrange(0, i + 1).drop_last() =~= s.subrange(0, i as int));
            assert(s.subrange(0, i + 1).last() == s[i as int]);
            let e = &self.entries[i];
            if e.call_id == id {
                found = Some(e.response.clone());
            } else {
                kept.push(CompositeRequest {
                    call_id: e.call_id,
                    response: e.response.clone(),
                    created_ms: e.created_ms,
                });
            }
            i = i + 1;
        }
        assert(s.subrange(0, s.len() as int) =~= s);
        proof {
            lemma_without_id(s, id);
            assert forall|a: int, b: int| 0 <= a < b < kept@.len() implies (
            #[trigger] kept@[a]).call_id != (#[trigger] kept@[b]).call_id by {
                lemma_subsequence_unique(s, id, a, b);
            }
        }
        self.entries = kept;
        found
    }

    /// Remembers the `response` object of the request `id`, made at `now`.
    pub fn register(&mut self, id: u64, response: String, now: u64)
        requires
            old(self).wf(),
        ensures
            final(self).wf(),
            final(self)@ == without_id(old(self)@, id).push(
                CompositeRequest { call_id: id, response, created_ms: now },
            ),
    {
        let _ = self.take(id);
        proof {
            lemma_without_id(old(self)@, id);
        }
        self.entries.push(CompositeRequest { call_id: id, response, created_ms: now });
    }

    /// Drops every entry that has expired at `now`.
    pub fn sweep(&mut self, now: u64)
        requires
            old(self).wf(),
        ensures
            final(self).wf(),
            final(self)@ == live(old(self)@, now),
            forall|id: u64|
                entry_for(#[trigger] live(old(self)@, now), id) == (match entry_for(
                    old(self)@,
                    id,
                ) {
                    Some(e) => if expired(e.created_ms, now) {
                        None
                    } else {
                        Some(e)
                    },
                    None => None,
                }),
    {
        let ghost s = self@;
        let mut kept: Vec<CompositeRequest> = Vec::new();
        let mut i: usize = 0;
        while i < self.entries.len()
            invariant
                s == self@,
                ids_unique(s),
                i <= s.len(),
                kept@ == live(s.subrange(0, i as int), now),
                ids_unique(kept@),
                forall|m: int|
                    0 <= m < kept@.len() ==> exists|k: int|
                        0 <= k < i && #[trigger] kept@[m] == s[k],
            decreases s.len() - i,
        {
            assert(s.subrange(0, i + 1).drop_last() =~= s.subrange(0, i as int));
            assert(s.subrange(0, i + 1).last() == s[i as int]);
            let e = &self.entries[i];
            let old_enough = now >= e.created_ms && now - e.created_ms > COMPOSITE_TIMEOUT_MS;
            if !old_enough {
                let ghost before = kept@;
                kept.push(CompositeRequest {
                    call_id: e.call_id,
                    response: e.response.clone(),
                    created_ms: e.created_ms,
                });
                proof {
                    assert forall|m: int| 0 <= m < kept@.len() implies exists|k: int|
                        0 <= k < i + 1 && #[trigger] kept@[m] == s[k] by {
                        if m < before.len() {
                            assert(kept@[m] == before[m]);
                        } else {
                            assert(kept@[m] == s[i as int]);
                        }
                    }
                    assert forall|a: int, b: int| 0 <= a < b < kept@.len() implies (
                    #[trigger] kept@[a]).call_id != (#[trigger] kept@[b]).call_id by {
                        if b == before.len() {
                            assert(kept@[a] == before[a]);
                            let k = choose|k: int| 0 <= k < i && #[trigger] before[a] == s[k];
                            assert(s[k].call_id != s[i as int].call_id);
                        } else {
                            assert(kept@[a] == before[a]);
                            assert(kept@[b] == before[b]);
                        }
                    }
                }
            }
            i = i + 1;
        }
        assert(s.subrange(0, s.len() as int) =~= s);
        proof {
            assert forall|id: u64| entry_for(#[trigger] live(s, now), id) == (match entry_for(
                s,
                id,
            ) {
                Some(e) => if expired(e.created_ms, now) {
                    None
                } else {
                    Some(e)
                },
                None => None,
            }) by {
                lemma_live(s, now, id);
            }
        }
        self.entries = kept;
    }
}

proof fn lemma_subsequence_unique(s: Seq<CompositeRequest>, id: u64, a: int, b: int)
    requires
        ids_unique(s),
        0 <= a < b < without_id(s, id).len(),
    ensures
        without_id(s, id)[a].call_id != without_id(s, id)[b].call_id,
    decreases s.len(),
{
    let t = without_id(s, id);
    let d = s.drop_last();
    assert(ids_unique(d)) by {
        assert forall|i: int, j: int| 0 <= i < j < d.len() implies (#[trigger] d[i]).call_id != (
        #[trigger] d[j]).call_id by {
            assert(d[i] == s[i] && d[j] == s[j]);
        }
    }
    lemma_without_id(d, id);
    if s.last().call_id != id {
        if b < t.len() - 1 {
            lemma_subsequence_unique(d, id, a, b);
        } else {
            assert(t[a] == without_id(d, id)[a]);
            let j = choose|j: int| 0 <= j < d.len() && #[trigger] without_id(d, id)[a] == d[j];
            assert(d[j] == s[j]);
            assert(t[b] == s[s.len() - 1]);
        }
    } else {
        lemma_subsequence_unique(d, id, a, b);
    }
}

/// A composite request is found until it expires: swept before its timeout
/// the table still holds it, swept after its timeout the table has no entry
/// for its call id.
pub proof fn lemma_composite_round_trip(
    s: Seq<CompositeRequest>,
    id: u64,
    response: String,
    created: u64,
    now: u64,
)
    requires
        ids_unique(s),
    ensures
        ({
            let t = without_id(s, id).push(
                CompositeRequest { call_id: id, response, created_ms: created },
            );
            &&& now <= created + COMPOSITE_TIMEOUT_MS ==> entry_for(live(t, now), id) == Some(
                CompositeRequest { call_id: id, response, created_ms: created },
            )
            &&& now > created + COMPOSITE_TIMEOUT_MS ==> entry_for(live(t, now), id).is_none()
        }),
{
    let e = CompositeRequest { call_id: id, response, created_ms: created };
    let t = without_id(s, id).push(e);
    lemma_without_id(s, id);
    assert(ids_unique(t)) by {
        assert forall|i: int, j: int| 0 <= i < j < t.len() implies (#[trigger] t[i]).call_id != (
        #[trigger] t[j]).call_id by {
            if j == t.len() - 1 {
                assert(t[i] == without_id(s, id)[i]);
            } else {
                lemma_subsequence_unique(s, id, i, j);
            }
        }
    }
    assert(t.drop_last() == without_id(s, id));
    lemma_live(t, now, id);
}

} // verus!
