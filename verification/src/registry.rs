//! The node registry: the mapping from logical node ids to transport peer
//! handles. Each service instance owns one; entries are added when a node
//! starts or a peer connects, and removed on explicit removal only.

use vstd::prelude::*;

verus! {

/// One registry row: a logical node id and the opaque transport handle the
/// shell uses to reach that peer.
#[derive(Debug, Clone)]
pub struct NodeEntry {
    pub node_id: String,
    pub handle: u64,
}

/// No node id occurs twice in the sequence.
pub open spec fn reg_keys_distinct(s: Seq<NodeEntry>) -> bool {
    forall|i: int, j: int| 0 <= i < j < s.len() ==> s[i].node_id@ != s[j].node_id@
}

/// Whether some entry carries the given node id.
pub open spec fn reg_contains(s: Seq<NodeEntry>, id: Seq<char>) -> bool {
    exists|i: int| 0 <= i < s.len() && s[i].node_id@ == id
}

/// The handle stored for the given node id (meaningful under
/// `reg_keys_distinct` when `reg_contains` holds).
pub open spec fn reg_handle(s: Seq<NodeEntry>, id: Seq<char>) -> u64 {
    s[choose|i: int| 0 <= i < s.len() && s[i].node_id@ == id].handle
}

/// With distinct keys, the entry at any index is the one `reg_handle` finds
/// for its id.
pub proof fn lemma_reg_lookup_at(s: Seq<NodeEntry>, i: int)
    requires
        reg_keys_distinct(s),
        0 <= i < s.len(),
    ensures
        reg_contains(s, s[i].node_id@),
        reg_handle(s, s[i].node_id@) == s[i].handle,
{
    let id = s[i].node_id@;
    assert(reg_contains(s, id));
    let j = choose|j: int| 0 <= j < s.len() && s[j].node_id@ == id;
    if i < j {
        assert(s[i].node_id@ != s[j].node_id@);
    } else if j < i {
        assert(s[j].node_id@ != s[i].node_id@);
    }
}

/// The process-visible table of reachable nodes.
#[derive(Debug, Clone)]
pub struct NodeRegistry {
    pub entries: Vec<NodeEntry>,
}

impl NodeRegistry {
    /// Every node id is registered at most once.
    pub open spec fn wf(&self) -> bool {
        reg_keys_distinct(self.entries@)
    }

    /// Whether `id` is registered.
    pub open spec fn spec_contains(&self, id: Seq<char>) -> bool {
        reg_contains(self.entries@, id)
    }

    /// The handle registered for `id`.
    pub open spec fn spec_handle(&self, id: Seq<char>) -> u64 {
        reg_handle(self.entries@, id)
    }

    /// Creates an empty registry.
    pub fn new() -> (r: Self)
        ensures
            r.entries@.len() == 0,
            r.wf(),
    {
        NodeRegistry { entries: Vec::new() }
    }

    /// The number of registered nodes.
    pub fn len(&self) -> (r: usize)
        ensures
            r == self.entries@.len(),
    {
        self.entries.len()
    }

    /// The index of `id`'s entry, if registered.
    fn find(&self, id: &String) -> (r: Option<usize>)
        ensures
            match r {
                Some(i) => i < self.entries@.len() && self.entries@[i as int].node_id@ == id@,
                None => !self.spec_contains(id@),
            },
    {
        let n = self.entries.len();
        let mut i: usize = 0;
        while i < n
            invariant
                n == self.entries@.len(),
                0 <= i <= n,
                forall|k: int| 0 <= k < i ==> self.entries@[k].node_id@ != id@,
            decreases n - i,
        {
            if self.entries[i].node_id == *id {
                return Some(i);
            }
            i += 1;
        }
        None
    }

    /// Whether `id` is registered.
    pub fn contains(&self, id: &String) -> (r: bool)
        ensures
            r == self.spec_contains(id@),
    {
        match self.find(id) {
            Some(i) => {
                proof {
                    assert(self.entries@[i as int].node_id@ == id@);
                }
                true
            },
            None => false,
        }
    }

    /// The transport handle registered for `id`.
    pub fn get(&self, id: &String) -> (r: Option<u64>)
        requires
            self.wf(),
        ensures
            match r {
                Some(h) => self.spec_contains(id@) && h == self.spec_handle(id@),
                None => !self.spec_contains(id@),
            },
    {
        match self.find(id) {
            Some(i) => {
                proof {
                    lemma_reg_lookup_at(self.entries@, i as int);
                }
                Some(self.entries[i].handle)
            },
            None => None,
        }
    }

    /// Registers `id` with `handle`; an existing entry for `id` is replaced.
    pub fn insert(&mut self, id: String, handle: u64)
        requires
            old(self).wf(),
        ensures
            final(self).wf(),
            final(self).spec_contains(id@),
            final(self).spec_handle(id@) == handle,
            forall|k: Seq<char>|
                k != id@ ==> final(self).spec_contains(k) == old(self).spec_contains(k),
            forall|k: Seq<char>|
                k != id@ && old(self).spec_contains(k) ==> final(self).spec_handle(k) == old(
                    self,
                ).spec_handle(k),
            final(self).entries@.len() == if old(self).spec_contains(id@) {
                old(self).entries@.len()
            } else {
                old(self).entries@.len() + 1
            },
    {
        let ghost key = id@;
        match self.find(&id) {
            Some(i) => {
                self.entries[i] = NodeEntry { node_id: id, handle };
                proof {
                    let before = old(self).entries@;
                    let after = self.entries@;
                    assert(after == before.update(i as int, after[i as int]));
                    assert forall|a: int, b: int|
                        0 <= a < b < after.len() implies after[a].node_id@ != after[b].node_id@ by {
                        assert(before[a].node_id@ != before[b].node_id@);
                        assert(before[i as int].node_id@ == key);
                    }
                    lemma_reg_lookup_at(after, i as int);
                    assert forall|k: Seq<char>| k != key implies final(self).spec_contains(k)
                        == old(self).spec_contains(k) by {
                        self.lemma_update_preserves(old(self).entries@, i as int, k);
                    }
                    assert forall|k: Seq<char>|
                        k != key && old(self).spec_contains(k) implies final(self).spec_handle(k)
                        == old(self).spec_handle(k) by {
                        self.lemma_update_preserves(old(self).entries@, i as int, k);
                    }
                }
            },
            None => {
                let ghost n = self.entries@.len();
                self.entries.push(NodeEntry { node_id: id, handle });
                proof {
                    let before = old(self).entries@;
                    let after = self.entries@;
                    assert(after[n as int].node_id@ == key);
                    assert forall|a: int, b: int|
                        0 <= a < b < after.len() implies after[a].node_id@ != after[b].node_id@ by {
                        if b < n {
                            assert(before[a].node_id@ != before[b].node_id@);
                        } else {
                            assert(after[a] == before[a]);
                            assert(!reg_contains(before, key));
                        }
                    }
                    lemma_reg_lookup_at(after, n as int);
                    assert forall|k: Seq<char>| k != key implies final(self).spec_contains(k)
                        == old(self).spec_contains(k) by {
                        if reg_contains(after, k) {
                            let w = choose|w: int| 0 <= w < after.len() && after[w].node_id@ == k;
                            assert(w < n);
                            assert(before[w].node_id@ == k);
                        }
                        if reg_contains(before, k) {
                            let w = choose|w: int|
                                0 <= w < before.len() && before[w].node_id@ == k;
                            assert(after[w].node_id@ == k);
                        }
                    }
                    assert forall|k: Seq<char>|
                        k != key && old(self).spec_contains(k) implies final(self).spec_handle(k)
                        == old(self).spec_handle(k) by {
                        let w = choose|w: int| 0 <= w < before.len() && before[w].node_id@ == k;
                        lemma_reg_lookup_at(before, w);
                        assert(after[w].node_id@ == k);
                        lemma_reg_lookup_at(after, w);
                    }
                }
            },
        }
    }

    /// A helper fact: updating index `i` leaves lookups of other keys alone.
    proof fn lemma_update_preserves(&self, before: Seq<NodeEntry>, i: int, k: Seq<char>)
        requires
            reg_keys_distinct(before),
            reg_keys_distinct(self.entries@),
            0 <= i < before.len(),
            self.entries@.len() == before.len(),
            forall|j: int| 0 <= j < before.len() && j != i ==> self.entries@[j] == before[j],
            k != before[i].node_id@,
            k != self.entries@[i as int].node_id@,
        ensures
            reg_contains(self.entries@, k) == reg_contains(before, k),
            reg_contains(before, k) ==> reg_handle(self.entries@, k) == reg_handle(before, k),
    {
        let after = self.entries@;
        if reg_contains(before, k) {
            let w = choose|w: int| 0 <= w < before.len() && before[w].node_id@ == k;
            assert(after[w].node_id@ == k);
            lemma_reg_lookup_at(before, w);
            lemma_reg_lookup_at(after, w);
        }
        if reg_contains(after, k) {
            let w = choose|w: int| 0 <= w < after.len() && after[w].node_id@ == k;
            assert(before[w].node_id@ == k);
        }
    }

    /// Removes `id`'s entry if present; returns whether one was removed.
    pub fn remove(&mut self, id: &String) -> (removed: bool)
        requires
            old(self).wf(),
        ensures
            final(self).wf(),
            removed == old(self).spec_contains(id@),
            !final(self).spec_contains(id@),
            forall|k: Seq<char>|
                k != id@ ==> final(self).spec_contains(k) == old(self).spec_contains(k),
            forall|k: Seq<char>|
                k != id@ && old(self).spec_contains(k) ==> final(self).spec_handle(k) == old(
                    self,
                ).spec_handle(k),
            final(self).entries@.len() == if old(self).spec_contains(id@) {
                old(self).entries@.len() - 1
            } else {
                old(self).entries@.len() as int
            },
    {
        match self.find(id) {
            None => false,
            Some(i) => {
                self.entries.remove(i);
                proof {
                    let before = old(self).entries@;
                    let after = self.entries@;
                    before.remove_ensures(i as int);
                    assert forall|a: int, b: int|
                        0 <= a < b < after.len() implies after[a].node_id@ != after[b].node_id@ by {
                        let oa: int = if a < i { a } else { a + 1 };
                        let ob: int = if b < i { b } else { b + 1 };
                        assert(after[a] == before[oa]);
                        assert(after[b] == before[ob]);
                    }
                    assert forall|k: int| 0 <= k < after.len() implies after[k].node_id@
                        != id@ by {
                        if k < i {
                            assert(after[k] == before[k]);
                        } else {
                            assert(after[k] == before[k + 1]);
                        }
                    }
                    assert forall|k: Seq<char>| k != id@ implies final(self).spec_contains(k)
                        == old(self).spec_contains(k) by {
                        if reg_contains(before, k) {
                            let w = choose|w: int|
                                0 <= w < before.len() && before[w].node_id@ == k;
                            if w < i {
                                assert(after[w].node_id@ == k);
                            } else if w == i {
                                assert(false);
                            } else {
                                assert(after[w - 1] == before[w]);
                                assert(after[w - 1].node_id@ == k);
                            }
                        }
                        if reg_contains(after, k) {
                            let w = choose|w: int| 0 <= w < after.len() && after[w].node_id@ == k;
                            if w < i {
                                assert(before[w].node_id@ == k);
                            } else {
                                assert(after[w] == before[w + 1]);
                                assert(before[w + 1].node_id@ == k);
                            }
                        }
                    }
                    assert forall|k: Seq<char>|
                        k != id@ && old(self).spec_contains(k) implies final(self).spec_handle(k)
                        == old(self).spec_handle(k) by {
                        let w = choose|w: int| 0 <= w < before.len() && before[w].node_id@ == k;
                        lemma_reg_lookup_at(before, w);
                        if w < i {
                            assert(after[w].node_id@ == k);
                            lemma_reg_lookup_at(after, w);
                        } else if w == i {
                            assert(false);
                        } else {
                            assert(after[w - 1] == before[w]);
                            lemma_reg_lookup_at(after, w - 1);
                        }
                    }
                }
                true
            },
        }
    }

    /// All registered node ids, in registry order.
    pub fn node_ids(&self) -> (r: Vec<String>)
        ensures
            r@.len() == self.entries@.len(),
            forall|k: int| 0 <= k < r@.len() ==> r@[k]@ == self.entries@[k].node_id@,
    {
        let n = self.entries.len();
        let mut out: Vec<String> = Vec::new();
        let mut i: usize = 0;
        while i < n
            invariant
                n == self.entries@.len(),
                0 <= i <= n,
                out@.len() == i,
                forall|k: int| 0 <= k < i ==> out@[k]@ == self.entries@[k].node_id@,
            decreases n - i,
        {
            out.push(self.entries[i].node_id.clone());
            i += 1;
        }
        out
    }
}

} // verus!
