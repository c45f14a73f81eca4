use vstd::prelude::*;

use crate::request::{BrokerRequest, ListenKind};
use crate::text::{equals_ignore_case, fold_case};

verus! {

/// What identifies a subscription: the session, and the method without case.
pub open spec fn key_of(e: BrokerRequest) -> (Seq<char>, Seq<u32>) {
    (e.rpc.session_id@, fold_case(e.rpc.method@))
}

/// The key that a request for `method` in `session` has.
pub open spec fn key_for(session: Seq<char>, method: Seq<char>) -> (Seq<char>, Seq<u32>) {
    (session, fold_case(method))
}

/// Whether some entry of `s` has key `k`.
pub open spec fn has_key(s: Seq<BrokerRequest>, k: (Seq<char>, Seq<u32>)) -> bool {
    exists|i: int| 0 <= i < s.len() && key_of(#[trigger] s[i]) == k
}

/// No two entries of `s` share a key.
pub open spec fn keys_unique(s: Seq<BrokerRequest>) -> bool {
    forall|i: int, j: int| 0 <= i < j < s.len() ==> key_of(#[trigger] s[i]) != key_of(#[trigger] s[j])
}

/// `s` with `req` added when it is a listen.
pub open spec fn with_listen(s: Seq<BrokerRequest>, req: BrokerRequest) -> Seq<BrokerRequest> {
    if req.rpc.listen == ListenKind::Listen {
        s.push(req)
    } else {
        s
    }
}

/// The entries of `s` that belong to `session`, in order.
pub open spec fn of_session(s: Seq<BrokerRequest>, session: Seq<char>) -> Seq<BrokerRequest>
    decreases s.len(),
{
    if s.len() == 0 {
        s
    } else if s.last().rpc.session_id@ == session {
        of_session(s.drop_last(), session).push(s.last())
    } else {
        of_session(s.drop_last(), session)
    }
}

/// The entries of `s` that belong to other sessions, in order.
pub open spec fn other_sessions(s: Seq<BrokerRequest>, session: Seq<char>) -> Seq<BrokerRequest>
    decreases s.len(),
{
    if s.len() == 0 {
        s
    } else if s.last().rpc.session_id@ != session {
        other_sessions(s.drop_last(), session).push(s.last())
    } else {
        other_sessions(s.drop_last(), session)
    }
}

/// What `subscribe` and `unsubscribe` do to the entries and what they return:
/// the entry with the request's key leaves (and is returned); with `add`, a
/// listen takes its place at the end.
pub open spec fn replace_post(
    before: Seq<BrokerRequest>,
    after: Seq<BrokerRequest>,
    req: BrokerRequest,
    add: bool,
    r: Option<BrokerRequest>,
) -> bool {
    let k = key_of(req);
    match r {
        Some(p) => exists|i: int|
            0 <= i < before.len() && key_of(#[trigger] before[i]) == k && p == before[i] && after
                == (if add {
                with_listen(before.remove(i), req)
            } else {
                before.remove(i)
            }),
        None => !has_key(before, k) && after == (if add {
            with_listen(before, req)
        } else {
            before
        }),
    }
}

/// Whether `x` is one of the first `n` entries of `s`.
pub open spec fn among_first(x: BrokerRequest, s: Seq<BrokerRequest>, n: int) -> bool {
    exists|k: int| 0 <= k < n && x == #[trigger] s[k]
}

/// The active subscriptions of all sessions, at most one per session and
/// method.
pub struct SubscriptionRegistry {
    entries: Vec<BrokerRequest>,
}

impl SubscriptionRegistry {
    pub closed spec fn view(&self) -> Seq<BrokerRequest> {
        self.entries@
    }

    pub open spec fn wf(&self) -> bool {
        keys_unique(self@)
    }

    pub fn new() -> (r: SubscriptionRegistry)
        ensures
            r.wf(),
            r@ == Seq::<BrokerRequest>::empty(),
    {
        SubscriptionRegistry { entries: Vec::new() }
    }

    pub fn len(&self) -> (r: usize)
        ensures
            r == self@.len(),
    {
        self.entries.len()
    }

    /// The entry at `i`, copied.
    pub fn entry(&self, i: usize) -> (r: BrokerRequest)
        requires
            i < self@.len(),
        ensures
            r == self@[i as int],
    {
        self.entries[i].duplicate()
    }

    /// The position of the entry with `req`'s key.
    fn position(&self, req: &BrokerRequest) -> (r: Option<usize>)
        ensures
            match r {
                Some(i) => i < self@.len() && key_of(self@[i as int]) == key_of(*req),
                None => !has_key(self@, key_of(*req)),
            },
    {
        let mut i: usize = 0;
        while i < self.entries.len()
            invariant
                i <= self@.len(),
                forall|k: int| 0 <= k < i ==> key_of(#[trigger] self@[k]) != key_of(*req),
            decreases self.entries.len() - i,
        {
            let e = &self.entries[i];
            if e.rpc.session_id == req.rpc.session_id && equals_ignore_case(
                e.rpc.method.as_str(),
                req.rpc.method.as_str(),
            ) {
                return Some(i);
            }
            i = i + 1;
        }
        None
    }

    proof fn lemma_remove_keeps_unique(s: Seq<BrokerRequest>, i: int)
        requires
            keys_unique(s),
            0 <= i < s.len(),
        ensures
            keys_unique(s.remove(i)),
            !has_key(s.remove(i), key_of(s[i])),
    {
        let t = s.remove(i);
        assert forall|a: int, b: int| 0 <= a < b < t.len() implies key_of(#[trigger] t[a]) != key_of(
            #[trigger] t[b],
        ) by {
            let a2 = if a < i { a } else { a + 1 };
            let b2 = if b < i { b } else { b + 1 };
            assert(t[a] == s[a2] && t[b] == s[b2]);
        }
        if has_key(t, key_of(s[i])) {
            let j = choose|j: int| 0 <= j < t.len() && key_of(#[trigger] t[j]) == key_of(s[i]);
            let j2 = if j < i { j } else { j + 1 };
            assert(t[j] == s[j2]);
        }
    }

    proof fn lemma_push_keeps_unique(s: Seq<BrokerRequest>, req: BrokerRequest)
        requires
            keys_unique(s),
            !has_key(s, key_of(req)),
        ensures
            keys_unique(s.push(req)),
    {
        let t = s.push(req);
        assert forall|a: int, b: int| 0 <= a < b < t.len() implies key_of(#[trigger] t[a]) != key_of(
            #[trigger] t[b],
        ) by {
            assert(t[a] == s[a]);
            if b < s.len() {
                assert(t[b] == s[b]);
            }
        }
    }

    /// Records a listen for its session and method, displacing the entry that
    /// had the same session and method, which is returned. A request that is
    /// not a listen only displaces.
    pub fn subscribe(&mut self, req: BrokerRequest) -> (r: Option<BrokerRequest>)
        requires
            old(self).wf(),
        ensures
            final(self).wf(),
            replace_post(old(self)@, final(self)@, req, true, r),
    {
        let pos = self.position(&req);
        let listen = req.rpc.listen == ListenKind::Listen;
        match pos {
            Some(i) => {
                proof {
                    Self::lemma_remove_keeps_unique(self@, i as int);
                }
                let prior = self.entries.remove(i);
                if listen {
                    proof {
                        Self::lemma_push_keeps_unique(self@, req);
                    }
                    self.entries.push(req);
                }
                Some(prior)
            },
            None => {
                if listen {
                    proof {
                        Self::lemma_push_keeps_unique(self@, req);
                    }
                    self.entries.push(req);
                }
                None
            },
        }
    }

    /// Removes the entry with `req`'s session and method, and returns it.
    pub fn unsubscribe(&mut self, req: &BrokerRequest) -> (r: Option<BrokerRequest>)
        requires
            old(self).wf(),
        ensures
            final(self).wf(),
            replace_post(old(self)@, final(self)@, *req, false, r),
    {
        match self.position(req) {
            Some(i) => {
                proof {
                    Self::lemma_remove_keeps_unique(self@, i as int);
                }
                Some(self.entries.remove(i))
            },
            None => None,
        }
    }

    /// Removes every entry of `session` and returns them in order.
    pub fn drain(&mut self, session: &str) -> (r: Vec<BrokerRequest>)
        requires
            old(self).wf(),
        ensures
            final(self).wf(),
            r@ == of_session(old(self)@, session@),
            final(self)@ == other_sessions(old(self)@, session@),
            forall|i: int|
                0 <= i < final(self)@.len() ==> (#[trigger] final(self)@[i]).rpc.session_id@
                    != session@,
    {
        let ghost s = self@;
        let wanted: String = session.to_owned();
        let mut taken: Vec<BrokerRequest> = Vec::new();
        let mut kept: Vec<BrokerRequest> = Vec::new();
        let mut i: usize = 0;
        while i < self.entries.len()
            invariant
                s == self@,
                wanted@ == session@,
                keys_unique(s),
                i <= s.len(),
                taken@ == of_session(s.subrange(0, i as int), session@),
                kept@ == other_sessions(s.subrange(0, i as int), session@),
                keys_unique(kept@),
                forall|m: int| 0 <= m < kept@.len() ==> among_first(#[trigger] kept@[m], s, i as int),
                forall|m: int|
                    0 <= m < kept@.len() ==> (#[trigger] kept@[m]).rpc.session_id@ != session@,
            decreases s.len() - i,
        {
            let e = self.entries[i].duplicate();
            assert(s.subrange(0, i + 1).drop_last() =~= s.subrange(0, i as int));
            assert(s.subrange(0, i + 1).last() == s[i as int]);
            if e.rpc.session_id == wanted {
                taken.push(e);
            } else {
                proof {
                    assert forall|a: int, b: int|
                        0 <= a < b < kept@.len() + 1 implies key_of(
                        #[trigger] kept@.push(e)[a],
                    ) != key_of(#[trigger] kept@.push(e)[b]) by {
                        if b == kept@.len() {
                            assert(among_first(kept@[a], s, i as int));
                            let k = choose|k: int| 0 <= k < i && kept@[a] == #[trigger] s[k];
                            assert(kept@.push(e)[a] == s[k]);
                        } else {
                            assert(kept@.push(e)[a] == kept@[a]);
                            assert(kept@.push(e)[b] == kept@[b]);
                        }
                    }
                }
                let ghost before = kept@;
                kept.push(e);
                proof {
                    assert forall|m: int| 0 <= m < kept@.len() implies among_first(
                        #[trigger] kept@[m],
                        s,
                        i + 1,
                    ) by {
                        if m < before.len() {
                            assert(kept@[m] == before[m]);
                            assert(among_first(before[m], s, i as int));
                            let k = choose|k: int| 0 <= k < i && before[m] == #[trigger] s[k];
                            assert(kept@[m] == s[k]);
                        } else {
                            assert(kept@[m] == s[i as int]);
                        }
                    }
                    assert forall|m: int| 0 <= m < kept@.len() implies (
                    #[trigger] kept@[m]).rpc.session_id@ != session@ by {
                        if m < before.len() {
                            assert(kept@[m] == before[m]);
                        }
                    }
                }
            }
            i = i + 1;
        }
        assert(s.subrange(0, s.len() as int) =~= s);
        self.entries = kept;
        taken
    }
}

/// Two listens for the same session and method leave exactly one entry for
/// them, the later one; the later listen displaces the earlier one, whose
/// call id is then unregistered once.
pub proof fn lemma_listen_twice(
    s0: Seq<BrokerRequest>,
    s1: Seq<BrokerRequest>,
    s2: Seq<BrokerRequest>,
    a: BrokerRequest,
    b: BrokerRequest,
    p1: Option<BrokerRequest>,
    p2: Option<BrokerRequest>,
)
    requires
        keys_unique(s0),
        keys_unique(s1),
        keys_unique(s2),
        a.rpc.listen == ListenKind::Listen,
        b.rpc.listen == ListenKind::Listen,
        key_of(a) == key_of(b),
        replace_post(s0, s1, a, true, p1),
        replace_post(s1, s2, b, true, p2),
    ensures
        p2 == Some(a),
        s2.len() > 0 && s2.last() == b,
        forall|j: int| 0 <= j < s2.len() && key_of(#[trigger] s2[j]) == key_of(b) ==> j == s2.len() - 1,
{
    let k = key_of(a);
    assert(s1.last() == a);
    assert(key_of(s1[s1.len() - 1]) == k);
    assert(has_key(s1, k));
    let i = choose|i: int|
        0 <= i < s1.len() && key_of(#[trigger] s1[i]) == k && p2 == Some(s1[i]) && s2 == with_listen(
            s1.remove(i),
            b,
        );
    if i != s1.len() - 1 {
        assert(key_of(s1[i]) != key_of(s1[s1.len() - 1]));
    }
    assert forall|j: int| 0 <= j < s2.len() && key_of(#[trigger] s2[j]) == key_of(b) implies j == s2.len()
        - 1 by {
        if j < s2.len() - 1 {
            assert(s2[j] == s1.remove(i)[j]);
            assert(s1.remove(i)[j] == s1[j]);
        }
    }
}

} // verus!
