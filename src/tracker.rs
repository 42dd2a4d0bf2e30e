use std::collections::{BTreeMap, BTreeSet};
use vstd::prelude::*;

use crate::event::EndpointId;

verus! {

/// The match table after `remote` was matched with `local`.
pub open spec fn with_match(
    m: Map<EndpointId, Set<EndpointId>>,
    local: EndpointId,
    remote: EndpointId,
) -> Map<EndpointId, Set<EndpointId>> {
    if m.contains_key(local) {
        m.insert(local, m[local].insert(remote))
    } else {
        m.insert(local, set![remote])
    }
}

/// The match table after `remote` was lost: it leaves every entry, and
/// every entry stays.
pub open spec fn without_remote(
    m: Map<EndpointId, Set<EndpointId>>,
    remote: EndpointId,
) -> Map<EndpointId, Set<EndpointId>> {
    Map::new(|k: EndpointId| m.contains_key(k), |k: EndpointId| m[k].remove(remote))
}

/// Number of remote endpoints matched with `local`, or `None` for an
/// endpoint that no event ever named.
pub open spec fn count_of(m: Map<EndpointId, Set<EndpointId>>, local: EndpointId) -> Option<nat> {
    if m.contains_key(local) {
        Some(m[local].len())
    } else {
        None
    }
}

/// Whether at least one remote endpoint is matched with `local`.
pub open spec fn has_match(m: Map<EndpointId, Set<EndpointId>>, local: EndpointId) -> bool {
    m.contains_key(local) && m[local] != Set::<EndpointId>::empty()
}

/// Map from local endpoints to the set of remote endpoints matched with
/// them. An entry, once created, persists even when its set empties.
pub struct MatchTracker {
    table: BTreeMap<EndpointId, BTreeSet<EndpointId>>,
    // every key of `table`, once each
    keys: Vec<EndpointId>,
}

impl View for MatchTracker {
    type V = Map<EndpointId, Set<EndpointId>>;

    closed spec fn view(&self) -> Map<EndpointId, Set<EndpointId>> {
        Map::new(
            |k: EndpointId| self.table@.contains_key(k),
            |k: EndpointId| self.table@[k]@,
        )
    }
}

impl MatchTracker {
    pub closed spec fn wf(&self) -> bool {
        &&& self.keys@.no_duplicates()
        &&& forall|k: EndpointId| #[trigger]
            self.keys@.contains(k) <==> self.table@.contains_key(k)
        &&& forall|k: EndpointId| #[trigger]
            self.table@.contains_key(k) ==> self.table@[k]@.finite()
    }

    pub fn new() -> (r: MatchTracker)
        ensures
            r.wf(),
            r@ == Map::<EndpointId, Set<EndpointId>>::empty(),
    {
        let r = MatchTracker { table: BTreeMap::new(), keys: Vec::new() };
        assert(r@ =~= Map::<EndpointId, Set<EndpointId>>::empty());
        r
    }

    /// Records that `remote` matched `local`, creating the entry if absent.
    pub fn add_match(&mut self, local: EndpointId, remote: EndpointId)
        requires
            old(self).wf(),
        ensures
            final(self).wf(),
            final(self)@ == with_match(old(self)@, local, remote),
    {
        let ghost before = self@;
        match self.table.remove(&local) {
            Some(mut set) => {
                set.insert(remote);
                self.table.insert(local, set);
            },
            None => {
                assert(!self.keys@.contains(local));
                let mut set: BTreeSet<EndpointId> = BTreeSet::new();
                set.insert(remote);
                self.table.insert(local, set);
                self.keys.push(local);
                assert(self.keys@.last() == local);
                assert(self.keys@ == old(self).keys@.push(local));
            },
        }
        assert forall|k: EndpointId| #[trigger]
            self.keys@.contains(k) <==> self.table@.contains_key(k) by {
            if self.keys@.contains(k) && k != local {
                let i = choose|i: int| 0 <= i < self.keys@.len() && self.keys@[i] == k;
                assert(0 <= i < old(self).keys@.len());
                assert(old(self).keys@[i] == k);
            }
            if old(self).keys@.contains(k) {
                let i = choose|i: int| 0 <= i < old(self).keys@.len() && old(self).keys@[i] == k;
                assert(self.keys@[i] == k);
            }
        }
        assert(self@ =~= with_match(before, local, remote));
    }

    /// Removes `remote` from the set of every local endpoint.
    pub fn remove_everywhere(&mut self, remote: EndpointId)
        requires
            old(self).wf(),
        ensures
            final(self).wf(),
            final(self)@ == without_remote(old(self)@, remote),
    {
        let ghost before = self@;
        let n = self.keys.len();
        let mut i: usize = 0;
        while i < n
            invariant
                n == self.keys@.len(),
                self.wf(),
                self.keys@ == old(self).keys@,
                0 <= i <= n,
                forall|k: EndpointId| #[trigger]
                    self.table@.contains_key(k) <==> old(self).table@.contains_key(k),
                forall|j: int| #![trigger self.keys@[j]]
                    0 <= j < i ==> self.table@[self.keys@[j]]@ == old(
                        self,
                    ).table@[self.keys@[j]]@.remove(remote),
                forall|j: int| #![trigger self.keys@[j]]
                    i <= j < n ==> self.table@[self.keys@[j]]@ == old(self).table@[self.keys@[j]]@,
            decreases n - i,
        {
            let k = self.keys[i];
            assert(self.keys@.contains(k));
            let opt = self.table.remove(&k);
            match opt {
                Some(mut set) => {
                    set.remove(&remote);
                    self.table.insert(k, set);
                },
                None => {},
            }
            assert forall|j: int| 0 <= j < n && j != i implies #[trigger] self.keys@[j] != k by {
                assert(self.keys@.no_duplicates());
            }
            i = i + 1;
        }
        assert forall|k: EndpointId| #[trigger] self.table@.contains_key(k) implies
            self.table@[k]@ == before[k].remove(remote) by {
            assert(self.keys@.contains(k));
            assert(before[k] == old(self).table@[k]@);
            let j = choose|j: int| 0 <= j < self.keys@.len() && self.keys@[j] == k;
        }
        assert(self@ =~= without_remote(before, remote));
    }

    /// The number of remote endpoints matched with `local`; `None` when no
    /// event ever named `local`.
    pub fn count(&self, local: EndpointId) -> (r: Option<usize>)
        requires
            self.wf(),
        ensures
            r matches Some(n) ==> count_of(self@, local) == Some(n as nat),
            r is None ==> count_of(self@, local) is None,
    {
        match self.table.get(&local) {
            Some(set) => Some(set.len()),
            None => None,
        }
    }

    /// Whether at least one remote endpoint is matched with `local`; false
    /// for an endpoint that no event ever named.
    pub fn has_match(&self, local: EndpointId) -> (r: bool)
        requires
            self.wf(),
        ensures
            r == has_match(self@, local),
    {
        match self.table.get(&local) {
            Some(set) => {
                proof {
                    if set@.len() == 0 {
                        set@.lemma_len0_is_empty();
                    }
                }
                !set.is_empty()
            },
            None => false,
        }
    }
}

} // verus!
