//! A small string-keyed table of handler tokens, used for the event bus's
//! named handlers and the service's message-type-keyed dispatch table.
//! Registration is an upsert: the last registration under a key wins.

use vstd::prelude::*;

verus! {

/// One table row: a key and the opaque token of the handler registered
/// under it.
#[derive(Debug, Clone)]
pub struct TokenEntry {
    pub key: String,
    pub token: u64,
}

/// No key occurs twice in the sequence.
pub open spec fn table_keys_distinct(s: Seq<TokenEntry>) -> bool {
    forall|i: int, j: int| 0 <= i < j < s.len() ==> s[i].key@ != s[j].key@
}

/// Whether some row carries the given key.
pub open spec fn table_contains(s: Seq<TokenEntry>, key: Seq<char>) -> bool {
    exists|i: int| 0 <= i < s.len() && s[i].key@ == key
}

/// The token stored for the given key (meaningful under
/// `table_keys_distinct` when `table_contains` holds).
pub open spec fn table_token(s: Seq<TokenEntry>, key: Seq<char>) -> u64 {
    s[choose|i: int| 0 <= i < s.len() && s[i].key@ == key].token
}

/// With distinct keys, the row at any index is the one `table_token` finds
/// for its key.
pub proof fn lemma_table_lookup_at(s: Seq<TokenEntry>, i: int)
    requires
        table_keys_distinct(s),
        0 <= i < s.len(),
    ensures
        table_contains(s, s[i].key@),
        table_token(s, s[i].key@) == s[i].token,
{
    let k = s[i].key@;
    assert(table_contains(s, k));
    let j = choose|j: int| 0 <= j < s.len() && s[j].key@ == k;
    if i < j {
        assert(s[i].key@ != s[j].key@);
    } else if j < i {
        assert(s[j].key@ != s[i].key@);
    }
}

/// An upsert/remove table from string keys to handler tokens.
#[derive(Debug, Clone)]
pub struct TokenTable {
    pub entries: Vec<TokenEntry>,
}

impl TokenTable {
    /// Every key is registered at most once.
    pub open spec fn wf(&self) -> bool {
        table_keys_distinct(self.entries@)
    }

    /// Whether a handler is registered under `key`.
    pub open spec fn spec_contains(&self, key: Seq<char>) -> bool {
        table_contains(self.entries@, key)
    }

    /// The token registered under `key`.
    pub open spec fn spec_token(&self, key: Seq<char>) -> u64 {
        table_token(self.entries@, key)
    }

    /// Creates an empty table.
    pub fn new() -> (r: Self)
        ensures
            r.entries@.len() == 0,
            r.wf(),
    {
        TokenTable { entries: Vec::new() }
    }

    /// The number of registered handlers.
    pub fn len(&self) -> (r: usize)
        ensures
            r == self.entries@.len(),
    {
        self.entries.len()
    }

    /// The index of `key`'s row, if present.
    fn find(&self, key: &String) -> (r: Option<usize>)
        ensures
            match r {
                Some(i) => i < self.entries@.len() && self.entries@[i as int].key@ == key@,
                None => !self.spec_contains(key@),
            },
    {
        let n = self.entries.len();
        let mut i: usize = 0;
        while i < n
            invariant
                n == self.entries@.len(),
                0 <= i <= n,
                forall|k: int| 0 <= k < i ==> self.entries@[k].key@ != key@,
            decreases n - i,
        {
            if self.entries[i].key == *key {
                return Some(i);
            }
            i += 1;
        }
        None
    }

    /// The token registered under `key`, if any.
    pub fn get(&self, key: &String) -> (r: Option<u64>)
        requires
            self.wf(),
        ensures
            match r {
                Some(t) => self.spec_contains(key@) && t == self.spec_token(key@),
                None => !self.spec_contains(key@),
            },
    {
        match self.find(key) {
            Some(i) => {
                proof {
                    lemma_table_lookup_at(self.entries@, i as int);
                }
                Some(self.entries[i].token)
            },
            None => None,
        }
    }

    /// Registers `token` under `key`; an existing registration is replaced.
    pub fn insert(&mut self, key: String, token: u64)
        requires
            old(self).wf(),
        ensures
            final(self).wf(),
            final(self).spec_contains(key@),
            final(self).spec_token(key@) == token,
            forall|k: Seq<char>|
                k != key@ ==> final(self).spec_contains(k) == old(self).spec_contains(k),
            forall|k: Seq<char>|
                k != key@ && old(self).spec_contains(k) ==> final(self).spec_token(k) == old(
                    self,
                ).spec_token(k),
            final(self).entries@.len() == if old(self).spec_contains(key@) {
                old(self).entries@.len()
            } else {
                old(self).entries@.len() + 1
            },
    {
        let ghost kview = key@;
        match self.find(&key) {
            Some(i) => {
                self.entries[i] = TokenEntry { key, token };
                proof {
                    let before = old(self).entries@;
                    let after = self.entries@;
                    assert forall|a: int, b: int|
                        0 <= a < b < after.len() implies after[a].key@ != after[b].key@ by {
                        assert(before[a].key@ != before[b].key@);
                        assert(before[i as int].key@ == kview);
                    }
                    lemma_table_lookup_at(after, i as int);
                    assert forall|k: Seq<char>| k != kview implies final(self).spec_contains(k)
                        == old(self).spec_contains(k) by {
                        self.lemma_update_preserves(before, i as int, k);
                    }
                    assert forall|k: Seq<char>|
                        k != kview && old(self).spec_contains(k) implies final(self).spec_token(k)
                        == old(self).spec_token(k) by {
                        self.lemma_update_preserves(before, i as int, k);
                    }
                }
            },
            None => {
                let ghost n = self.entries@.len();
                self.entries.push(TokenEntry { key, token });
                proof {
                    let before = old(self).entries@;
                    let after = self.entries@;
                    assert(after[n as int].key@ == kview);
                    assert forall|a: int, b: int|
                        0 <= a < b < after.len() implies after[a].key@ != after[b].key@ by {
                        if b < n {
                            assert(before[a].key@ != before[b].key@);
                        } else {
                            assert(after[a] == before[a]);
                            assert(!table_contains(before, kview));
                        }
                    }
                    lemma_table_lookup_at(after, n as int);
                    assert forall|k: Seq<char>| k != kview implies final(self).spec_contains(k)
                        == old(self).spec_contains(k) by {
                        if table_contains(after, k) {
                            let w = choose|w: int| 0 <= w < after.len() && after[w].key@ == k;
                            assert(w < n);
                            assert(before[w].key@ == k);
                        }
                        if table_contains(before, k) {
                            let w = choose|w: int| 0 <= w < before.len() && before[w].key@ == k;
                            assert(after[w].key@ == k);
                        }
                    }
                    assert forall|k: Seq<char>|
                        k != kview && old(self).spec_contains(k) implies final(self).spec_token(k)
                        == old(self).spec_token(k) by {
                        let w = choose|w: int| 0 <= w < before.len() && before[w].key@ == k;
                        lemma_table_lookup_at(before, w);
                        assert(after[w].key@ == k);
                        lemma_table_lookup_at(after, w);
                    }
                }
            },
        }
    }

    /// A helper fact: updating index `i` leaves lookups of other keys alone.
    proof fn lemma_update_preserves(&self, before: Seq<TokenEntry>, i: int, k: Seq<char>)
        requires
            table_keys_distinct(before),
            table_keys_distinct(self.entries@),
            0 <= i < before.len(),
            self.entries@.len() == before.len(),
            forall|j: int| 0 <= j < before.len() && j != i ==> self.entries@[j] == before[j],
            k != before[i].key@,
            k != self.entries@[i as int].key@,
        ensures
            table_contains(self.entries@, k) == table_contains(before, k),
            table_contains(before, k) ==> table_token(self.entries@, k) == table_token(before, k),
    {
        let after = self.entries@;
        if table_contains(before, k) {
            let w = choose|w: int| 0 <= w < before.len() && before[w].key@ == k;
            assert(after[w].key@ == k);
            lemma_table_lookup_at(before, w);
            lemma_table_lookup_at(after, w);
        }
        if table_contains(after, k) {
            let w = choose|w: int| 0 <= w < after.len() && after[w].key@ == k;
            assert(before[w].key@ == k);
        }
    }

    /// Removes the registration under `key`; returns whether one existed.
    pub fn remove(&mut self, key: &String) -> (removed: bool)
        requires
            old(self).wf(),
        ensures
            final(self).wf(),
            removed == old(self).spec_contains(key@),
            !final(self).spec_contains(key@),
            forall|k: Seq<char>|
                k != key@ ==> final(self).spec_contains(k) == old(self).spec_contains(k),
            forall|k: Seq<char>|
                k != key@ && old(self).spec_contains(k) ==> final(self).spec_token(k) == old(
                    self,
                ).spec_token(k),
            final(self).entries@.len() == if old(self).spec_contains(key@) {
                old(self).entries@.len() - 1
            } else {
                old(self).entries@.len() as int
            },
    {
        match self.find(key) {
            None => false,
            Some(i) => {
                self.entries.remove(i);
                proof {
                    let before = old(self).entries@;
                    let after = self.entries@;
                    before.remove_ensures(i as int);
                    assert forall|a: int, b: int|
                        0 <= a < b < after.len() implies after[a].key@ != after[b].key@ by {
                        let oa: int = if a < i { a } else { a + 1 };
                        let ob: int = if b < i { b } else { b + 1 };
                        assert(after[a] == before[oa]);
                        assert(after[b] == before[ob]);
                    }
                    assert forall|k: int| 0 <= k < after.len() implies after[k].key@ != key@ by {
                        if k < i {
                            assert(after[k] == before[k]);
                        } else {
                            assert(after[k] == before[k + 1]);
                        }
                    }
                    assert forall|k: Seq<char>| k != key@ implies final(self).spec_contains(k)
                        == old(self).spec_contains(k) by {
                        if table_contains(before, k) {
                            let w = choose|w: int| 0 <= w < before.len() && before[w].key@ == k;
                            if w < i {
                                assert(after[w].key@ == k);
                            } else if w == i {
                                assert(false);
                            } else {
                                assert(after[w - 1] == before[w]);
                                assert(after[w - 1].key@ == k);
                            }
                        }
                        if table_contains(after, k) {
                            let w = choose|w: int| 0 <= w < after.len() && after[w].key@ == k;
                            if w < i {
                                assert(before[w].key@ == k);
                            } else {
                                assert(after[w] == before[w + 1]);
                                assert(before[w + 1].key@ == k);
                            }
                        }
                    }
                    assert forall|k: Seq<char>|
                        k != key@ && old(self).spec_contains(k) implies final(self).spec_token(k)
                        == old(self).spec_token(k) by {
                        let w = choose|w: int| 0 <= w < before.len() && before[w].key@ == k;
                        lemma_table_lookup_at(before, w);
                        if w < i {
                            assert(after[w].key@ == k);
                            lemma_table_lookup_at(after, w);
                        } else if w == i {
                            assert(false);
                        } else {
                            assert(after[w - 1] == before[w]);
                            lemma_table_lookup_at(after, w - 1);
                        }
                    }
                }
                true
            },
        }
    }

    /// All registered tokens, in registration order.
    pub fn tokens(&self) -> (r: Vec<u64>)
        ensures
            r@.len() == self.entries@.len(),
            forall|k: int| 0 <= k < r@.len() ==> r@[k] == self.entries@[k].token,
    {
        let n = self.entries.len();
        let mut out: Vec<u64> = Vec::new();
        let mut i: usize = 0;
        while i < n
            invariant
                n == self.entries@.len(),
                0 <= i <= n,
                out@.len() == i,
                forall|k: int| 0 <= k < i ==> out@[k] == self.entries@[k].token,
            decreases n - i,
        {
            out.push(self.entries[i].token);
            i += 1;
        }
        out
    }
}

} // verus!
