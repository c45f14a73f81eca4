use vstd::prelude::*;

verus! {

/// The activation state of a backend plugin.
#[derive(Clone, Copy, Debug, PartialEq, Eq, Structural)]
pub enum PluginState {
    /// Nothing is known yet; a status query is outstanding.
    Unknown,
    /// The backend has no such plugin.
    Missing,
    Activating,
    Activated,
    Deactivated,
}

/// The state that the controller's word for it names: `activated`,
/// `activation`, `deactivated`, `deactivation` and `unavailable`.
pub open spec fn state_named(name: Seq<char>) -> Option<PluginState> {
    if name == "activated"@ {
        Some(PluginState::Activated)
    } else if name == "activation"@ {
        Some(PluginState::Activating)
    } else if name == "deactivated"@ || name == "deactivation"@ {
        Some(PluginState::Deactivated)
    } else if name == "unavailable"@ {
        Some(PluginState::Missing)
    } else {
        None
    }
}

impl PluginState {
    /// The state that the controller reports under `name`, if it is one.
    pub fn from_name(name: &str) -> (r: Option<PluginState>)
        ensures
            r == state_named(name@),
    {
        let n: String = name.to_owned();
        if n == "activated".to_owned() {
            Some(PluginState::Activated)
        } else if n == "activation".to_owned() {
            Some(PluginState::Activating)
        } else if n == "deactivated".to_owned() || n == "deactivation".to_owned() {
            Some(PluginState::Deactivated)
        } else if n == "unavailable".to_owned() {
            Some(PluginState::Missing)
        } else {
            None
        }
    }
}

/// What the broker knows of one plugin, and the requests that wait for it.
#[derive(Debug)]
pub struct PluginStatus<T> {
    pub callsign: String,
    pub state: PluginState,
    pub pending: Vec<T>,
}

/// The position of `callsign`'s entry in `s`, or -1.
pub open spec fn slot<T>(s: Seq<PluginStatus<T>>, callsign: Seq<char>) -> int {
    if exists|i: int| 0 <= i < s.len() && (#[trigger] s[i]).callsign@ == callsign {
        choose|i: int| 0 <= i < s.len() && (#[trigger] s[i]).callsign@ == callsign
    } else {
        -1
    }
}

/// The state of `callsign`: `Unknown` when it has no entry.
pub open spec fn state_of<T>(s: Seq<PluginStatus<T>>, callsign: Seq<char>) -> PluginState {
    if slot(s, callsign) >= 0 {
        s[slot(s, callsign)].state
    } else {
        PluginState::Unknown
    }
}

/// The requests that wait for `callsign`, oldest first.
pub open spec fn pending_of<T>(s: Seq<PluginStatus<T>>, callsign: Seq<char>) -> Seq<T> {
    if slot(s, callsign) >= 0 {
        s[slot(s, callsign)].pending@
    } else {
        Seq::empty()
    }
}

/// No two entries of `s` have the same callsign.
pub open spec fn callsigns_unique<T>(s: Seq<PluginStatus<T>>) -> bool {
    forall|i: int, j: int|
        0 <= i < j < s.len() ==> (#[trigger] s[i]).callsign@ != (#[trigger] s[j]).callsign@
}

proof fn lemma_slot_at<T>(s: Seq<PluginStatus<T>>, callsign: Seq<char>, i: int)
    requires
        callsigns_unique(s),
        0 <= i < s.len(),
        s[i].callsign@ == callsign,
    ensures
        slot(s, callsign) == i,
{
    let j = slot(s, callsign);
    assert(0 <= j < s.len() && s[j].callsign@ == callsign);
    if j < i {
        assert(s[j].callsign@ != s[i].callsign@);
    } else if i < j {
        assert(s[i].callsign@ != s[j].callsign@);
    }
}

/// The plugin state table, with the requests that wait on each plugin.
pub struct StatusTable<T> {
    entries: Vec<PluginStatus<T>>,
}

impl<T> StatusTable<T> {
    pub closed spec fn view(&self) -> Seq<PluginStatus<T>> {
        self.entries@
    }

    pub open spec fn wf(&self) -> bool {
        callsigns_unique(self@)
    }

    pub fn new() -> (r: StatusTable<T>)
        ensures
            r.wf(),
            forall|c: Seq<char>|
                state_of(r@, c) == PluginState::Unknown && pending_of(r@, c) == Seq::<
                    T,
                >::empty(),
    {
        StatusTable { entries: Vec::new() }
    }

    /// The position of `callsign`'s entry.
    fn find(&self, callsign: &String) -> (r: Option<usize>)
        requires
            self.wf(),
        ensures
            match r {
                Some(i) => i < self@.len() && slot(self@, callsign@) == i,
                None => slot(self@, callsign@) == -1,
            },
    {
        let mut i: usize = 0;
        while i < self.entries.len()
            invariant
                self.wf(),
                i <= self@.len(),
                forall|k: int| 0 <= k < i ==> (#[trigger] self@[k]).callsign@ != callsign@,
            decreases self.entries.len() - i,
        {
            if self.entries[i].callsign == *callsign {
                proof {
                    lemma_slot_at(self@, callsign@, i as int);
                }
                return Some(i);
            }
            i = i + 1;
        }
        None
    }

    /// The state of `callsign`.
    pub fn get_state(&self, callsign: &String) -> (r: PluginState)
        requires
            self.wf(),
        ensures
            r == state_of(self@, callsign@),
    {
        match self.find(callsign) {
            Some(i) => self.entries[i].state,
            None => PluginState::Unknown,
        }
    }

    proof fn lemma_others_kept(s: Seq<PluginStatus<T>>, t: Seq<PluginStatus<T>>, callsign: Seq<char>, i: int)
        requires
            callsigns_unique(s),
            callsigns_unique(t),
            0 <= i <= s.len(),
            t.len() == (if i < s.len() { s.len() } else { s.len() + 1 }),
            t[i].callsign@ == callsign,
            i == s.len() ==> slot(s, callsign) == -1,
            i < s.len() ==> s[i].callsign@ == callsign,
            forall|k: int| 0 <= k < s.len() && k != i ==> #[trigger] t[k] == s[k],
        ensures
            forall|c: Seq<char>|
                c != callsign ==> state_of(t, c) == state_of(s, c) && pending_of(t, c)
                    == pending_of(s, c),
    {
        assert forall|c: Seq<char>| c != callsign implies state_of(t, c) == state_of(s, c)
            && pending_of(t, c) == pending_of(s, c) by {
            if slot(s, c) >= 0 {
                let k = slot(s, c);
                assert(s[k].callsign@ == c);
                assert(k != i);
                assert(t[k] == s[k]);
                lemma_slot_at(t, c, k);
            } else {
                if slot(t, c) >= 0 {
                    let k = slot(t, c);
                    assert(t[k].callsign@ == c);
                    assert(k != i);
                    assert(t[k] == s[k]);
                    assert(s[k].callsign@ == c);
                }
            }
        }
    }

    /// Puts `req` at the end of the requests that wait for `callsign`; the
    /// plugin's state does not change.
    pub fn enqueue(&mut self, callsign: &String, req: T)
        requires
            old(self).wf(),
        ensures
            final(self).wf(),
            pending_of(final(self)@, callsign@) == pending_of(old(self)@, callsign@).push(req),
            state_of(final(self)@, callsign@) == state_of(old(self)@, callsign@),
            forall|c: Seq<char>|
                c != callsign@ ==> state_of(final(self)@, c) == state_of(old(self)@, c)
                    && pending_of(final(self)@, c) == pending_of(old(self)@, c),
    {
        let ghost s = self@;
        match self.find(callsign) {
            Some(i) => {
                let mut entry = PluginStatus {
                    callsign: String::new(),
                    state: PluginState::Unknown,
                    pending: Vec::new(),
                };
                std::mem::swap(&mut entry, &mut self.entries[i]);
                entry.pending.push(req);
                std::mem::swap(&mut entry, &mut self.entries[i]);
                proof {
                    assert(self@[i as int].callsign@ == callsign@);
                    assert forall|a: int, b: int| 0 <= a < b < self@.len() implies (
                    #[trigger] self@[a]).callsign@ != (#[trigger] self@[b]).callsign@ by {
                        if a != i {
                            assert(self@[a] == s[a]);
                        }
                        if b != i {
                            assert(self@[b] == s[b]);
                        }
                    }
                    lemma_slot_at(self@, callsign@, i as int);
                    Self::lemma_others_kept(s, self@, callsign@, i as int);
                }
            },
            None => {
                let mut pending: Vec<T> = Vec::new();
                pending.push(req);
                let entry = PluginStatus {
                    callsign: callsign.clone(),
                    state: PluginState::Unknown,
                    pending,
                };
                self.entries.push(entry);
                proof {
                    assert forall|a: int, b: int| 0 <= a < b < self@.len() implies (
                    #[trigger] self@[a]).callsign@ != (#[trigger] self@[b]).callsign@ by {
                        assert(self@[a] == s[a]);
                        if b < s.len() {
                            assert(self@[b] == s[b]);
                        } else {
                            assert(s[a].callsign@ != callsign@);
                        }
                    }
                    lemma_slot_at(self@, callsign@, s.len() as int);
                    assert(pending_of(s, callsign@) == Seq::<T>::empty());
                    assert(self@[s.len() as int].pending@ =~= Seq::<T>::empty().push(
                        req,
                    ));
                    Self::lemma_others_kept(s, self@, callsign@, s.len() as int);
                }
            },
        }
    }

    /// Records the state that the backend reported for `callsign`. When it is
    /// `Activated`, the requests that waited for the plugin come back, oldest
    /// first, and no longer wait; otherwise they stay.
    pub fn set_state(&mut self, callsign: &String, state: PluginState) -> (r: Vec<T>)
        requires
            old(self).wf(),
        ensures
            final(self).wf(),
            state_of(final(self)@, callsign@) == state,
            r@ == (if state == PluginState::Activated {
                pending_of(old(self)@, callsign@)
            } else {
                Seq::empty()
            }),
            pending_of(final(self)@, callsign@) == (if state == PluginState::Activated {
                Seq::empty()
            } else {
                pending_of(old(self)@, callsign@)
            }),
            forall|c: Seq<char>|
                c != callsign@ ==> state_of(final(self)@, c) == state_of(old(self)@, c)
                    && pending_of(final(self)@, c) == pending_of(old(self)@, c),
    {
        let ghost s = self@;
        match self.find(callsign) {
            Some(i) => {
                let mut entry = PluginStatus {
                    callsign: String::new(),
                    state: PluginState::Unknown,
                    pending: Vec::new(),
                };
                std::mem::swap(&mut entry, &mut self.entries[i]);
                entry.state = state;
                let mut released: Vec<T> = Vec::new();
                if state == PluginState::Activated {
                    std::mem::swap(&mut released, &mut entry.pending);
                }
                std::mem::swap(&mut entry, &mut self.entries[i]);
                proof {
                    assert(self@[i as int].callsign@ == callsign@);
                    assert forall|a: int, b: int| 0 <= a < b < self@.len() implies (
                    #[trigger] self@[a]).callsign@ != (#[trigger] self@[b]).callsign@ by {
                        if a != i {
                            assert(self@[a] == s[a]);
                        }
                        if b != i {
                            assert(self@[b] == s[b]);
                        }
                    }
                    lemma_slot_at(self@, callsign@, i as int);
                    Self::lemma_others_kept(s, self@, callsign@, i as int);
                }
                released
            },
            None => {
                let entry = PluginStatus {
                    callsign: callsign.clone(),
                    state,
                    pending: Vec::new(),
                };
                self.entries.push(entry);
                proof {
                    assert forall|a: int, b: int| 0 <= a < b < self@.len() implies (
                    #[trigger] self@[a]).callsign@ != (#[trigger] self@[b]).callsign@ by {
                        assert(self@[a] == s[a]);
                        if b < s.len() {
                            assert(self@[b] == s[b]);
                        } else {
                            assert(s[a].callsign@ != callsign@);
                        }
                    }
                    lemma_slot_at(self@, callsign@, s.len() as int);
                    Self::lemma_others_kept(s, self@, callsign@, s.len() as int);
                }
                Vec::new()
            },
        }
    }
}

} // verus!
