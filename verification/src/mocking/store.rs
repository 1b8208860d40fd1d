use crate::mocking::mock_id::MockId;
use vstd::prelude::*;

verus! {

/// What the store holds for a mocked function.
pub enum Slot<M> {
    /// A mock is registered and ready to run.
    Idle(M),
    /// The registered mock has been handed out to a call that has not
    /// finished yet.
    Running,
}

struct Entry<M> {
    id: MockId,
    slot: Slot<M>,
}

/// The mocks registered for mocked functions, at most one per function.
pub struct MockStore<M> {
    entries: Vec<Entry<M>>,
}

spec fn entries_map<M>(s: Seq<Entry<M>>) -> Map<MockId, Slot<M>>
    decreases s.len(),
{
    if s.len() == 0 {
        Map::empty()
    } else {
        entries_map(s.drop_last()).insert(s.last().id, s.last().slot)
    }
}

spec fn distinct_ids<M>(s: Seq<Entry<M>>) -> bool {
    forall|i: int, j: int| 0 <= i < j < s.len() ==> s[i].id != s[j].id
}

proof fn lemma_entries_map_has<M>(s: Seq<Entry<M>>, i: int)
    requires
        distinct_ids(s),
        0 <= i < s.len(),
    ensures
        entries_map(s).contains_key(s[i].id),
        entries_map(s)[s[i].id] == s[i].slot,
    decreases s.len(),
{
    if i < s.len() - 1 {
        let t = s.drop_last();
        assert(t[i] == s[i]);
        assert(distinct_ids(t));
        lemma_entries_map_has(t, i);
    }
}

proof fn lemma_entries_map_lacks<M>(s: Seq<Entry<M>>, id: MockId)
    requires
        forall|i: int| 0 <= i < s.len() ==> s[i].id != id,
    ensures
        !entries_map(s).contains_key(id),
    decreases s.len(),
{
    if s.len() > 0 {
        let t = s.drop_last();
        assert(forall|i: int| 0 <= i < t.len() ==> t[i] == s[i]);
        lemma_entries_map_lacks(t, id);
    }
}

proof fn lemma_entries_map_update<M>(s: Seq<Entry<M>>, i: int, slot: Slot<M>)
    requires
        distinct_ids(s),
        0 <= i < s.len(),
    ensures
        entries_map(s.update(i, Entry { id: s[i].id, slot })) =~= entries_map(s).insert(s[i].id, slot),
    decreases s.len(),
{
    let u = s.update(i, Entry { id: s[i].id, slot });
    let t = s.drop_last();
    if i == s.len() - 1 {
        assert(u.drop_last() =~= t);
    } else {
        assert(u.drop_last() =~= t.update(i, Entry { id: s[i].id, slot }));
        assert(t[i] == s[i]);
        assert(distinct_ids(t));
        lemma_entries_map_update(t, i, slot);
        assert(s.last().id != s[i].id);
    }
}

/// The store after `mock` is registered for `id`: it replaces whatever was
/// there, also a mock that is running.
pub open spec fn registered<M>(store: Map<MockId, Slot<M>>, id: MockId, mock: M) -> Map<
    MockId,
    Slot<M>,
> {
    store.insert(id, Slot::Idle(mock))
}

/// What starting a call of the function `id` does: where a mock is idle it is
/// handed out and its slot marked running; otherwise (no mock, or its mock is
/// already running) nothing is handed out and the store stays as it is.
pub open spec fn call_started<M>(store: Map<MockId, Slot<M>>, id: MockId) -> (Map<
    MockId,
    Slot<M>,
>, Option<M>) {
    if store.contains_key(id) && store[id] is Idle {
        (store.insert(id, Slot::Running), Some(store[id]->Idle_0))
    } else {
        (store, None)
    }
}

/// What finishing a call of the function `id` that ran `mock` does: the mock
/// goes back into its slot if that slot is still marked running; if a new
/// mock was registered meanwhile, the new one stays and `mock` is dropped.
pub open spec fn call_finished<M>(store: Map<MockId, Slot<M>>, id: MockId, mock: M) -> Map<
    MockId,
    Slot<M>,
> {
    if store.contains_key(id) && store[id] is Running {
        store.insert(id, Slot::Idle(mock))
    } else {
        store
    }
}

impl<M> View for MockStore<M> {
    type V = Map<MockId, Slot<M>>;

    closed spec fn view(&self) -> Map<MockId, Slot<M>> {
        entries_map(self.entries@)
    }
}

impl<M> MockStore<M> {
    #[verifier::type_invariant]
    closed spec fn inv(self) -> bool {
        distinct_ids(self.entries@)
    }

    /// An empty store: no function is mocked.
    pub fn new() -> (s: Self)
        ensures
            s@ == Map::<MockId, Slot<M>>::empty(),
    {
        MockStore { entries: Vec::new() }
    }

    fn find(&self, id: &MockId) -> (r: Option<usize>)
        ensures
            r matches Some(i) ==> i < self.entries@.len() && self.entries@[i as int].id == *id,
            r is None ==> forall|i: int| 0 <= i < self.entries@.len() ==> self.entries@[i].id != *id,
    {
        let n = self.entries.len();
        let mut i: usize = 0;
        while i < n
            invariant
                n == self.entries@.len(),
                i <= n,
                forall|j: int| 0 <= j < i ==> self.entries@[j].id != *id,
            decreases n - i,
        {
            if self.entries[i].id.same_as(id) {
                return Some(i);
            }
            i = i + 1;
        }
        None
    }

    /// Registers `mock` for the function `id`, replacing any mock registered
    /// for it before.
    pub fn register(&mut self, id: MockId, mock: M)
        ensures
            final(self)@ == registered(old(self)@, id, mock),
    {
        proof {
            use_type_invariant(&*self);
        }
        let found = self.find(&id);
        let mut entries: Vec<Entry<M>> = Vec::new();
        std::mem::swap(&mut entries, &mut self.entries);
        match found {
            Some(i) => {
                proof {
                    lemma_entries_map_update(entries@, i as int, Slot::Idle(mock));
                }
                let _replaced = entries.remove(i);
                entries.insert(i, Entry { id, slot: Slot::Idle(mock) });
                proof {
                    assert(entries@ =~= old(self).entries@.update(i as int, Entry { id, slot: Slot::Idle(mock) }));
                }
            },
            None => {
                proof {
                    lemma_entries_map_lacks(entries@, id);
                }
                entries.push(Entry { id, slot: Slot::Idle(mock) });
                proof {
                    assert(entries@.drop_last() =~= old(self).entries@);
                }
            },
        }
        self.entries = entries;
    }

    /// Starts a call of the function `id`: hands out its mock if one is
    /// registered and not already running, marking it as running; returns
    /// `None`, and changes nothing, if the function is not mocked or its mock
    /// is the one that is running (a mock that calls its own function reaches
    /// the real function).
    pub fn begin_call(&mut self, id: &MockId) -> (r: Option<M>)
        ensures
            (final(self)@, r) == call_started(old(self)@, *id),
    {
        proof {
            use_type_invariant(&*self);
        }
        let found = self.find(id);
        match found {
            None => {
                proof {
                    lemma_entries_map_lacks(self.entries@, *id);
                }
                None
            },
            Some(i) => {
                proof {
                    lemma_entries_map_has(self.entries@, i as int);
                }
                if self.entries[i].slot.is_running() {
                    None
                } else {
                    let mut entries: Vec<Entry<M>> = Vec::new();
                    std::mem::swap(&mut entries, &mut self.entries);
                    proof {
                        lemma_entries_map_update(entries@, i as int, Slot::Running);
                    }
                    let taken = entries.remove(i);
                    entries.insert(i, Entry { id: taken.id, slot: Slot::Running });
                    proof {
                        assert(entries@ =~= old(self).entries@.update(
                            i as int,
                            Entry { id: *id, slot: Slot::Running },
                        ));
                    }
                    self.entries = entries;
                    match taken.slot {
                        Slot::Idle(mock) => Some(mock),
                        Slot::Running => None,
                    }
                }
            },
        }
    }

    /// Finishes a call of the function `id` that ran `mock`: puts `mock` back
    /// if the function's slot is still marked running; drops it if a mock
    /// was registered for the function while the call ran.
    pub fn end_call(&mut self, id: &MockId, mock: M)
        ensures
            final(self)@ == call_finished(old(self)@, *id, mock),
    {
        proof {
            use_type_invariant(&*self);
        }
        let found = self.find(id);
        match found {
            None => {
                proof {
                    lemma_entries_map_lacks(self.entries@, *id);
                }
            },
            Some(i) => {
                proof {
                    lemma_entries_map_has(self.entries@, i as int);
                }
                if self.entries[i].slot.is_running() {
                    let mut entries: Vec<Entry<M>> = Vec::new();
                    std::mem::swap(&mut entries, &mut self.entries);
                    proof {
                        lemma_entries_map_update(entries@, i as int, Slot::Idle(mock));
                    }
                    let _running = entries.remove(i);
                    entries.insert(i, Entry { id: *id, slot: Slot::Idle(mock) });
                    proof {
                        assert(entries@ =~= old(self).entries@.update(
                            i as int,
                            Entry { id: *id, slot: Slot::Idle(mock) },
                        ));
                    }
                    self.entries = entries;
                }
            },
        }
    }
}

impl<M> Slot<M> {
    /// Whether this slot's mock is out on a call.
    pub fn is_running(&self) -> (r: bool)
        ensures
            r == (*self is Running),
    {
        match self {
            Slot::Running => true,
            Slot::Idle(_) => false,
        }
    }
}

} // verus!
