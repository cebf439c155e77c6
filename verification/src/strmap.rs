//! A string-to-string map kept as a list of distinct keys, viewed as a `Map`.

use vstd::prelude::*;
use crate::text::str_eq;

verus! {

/// A map from strings to strings; each key occurs at most once.
pub struct StrMap {
    entries: Vec<(String, String)>,
}

impl StrMap {
    /// The keys are pairwise distinct.
    pub closed spec fn wf(&self) -> bool {
        forall|i: int, j: int|
            0 <= i < j < self.entries.len() ==> self.entries@[i].0@ != self.entries@[j].0@
    }

    /// Whether some entry has key `k`.
    pub closed spec fn has(&self, k: Seq<char>) -> bool {
        exists|i: int| 0 <= i < self.entries.len() && self.entries@[i].0@ == k
    }

    /// The position of key `k`.
    pub closed spec fn pos(&self, k: Seq<char>) -> int {
        choose|i: int| 0 <= i < self.entries.len() && self.entries@[i].0@ == k
    }

    /// The keys, in the order they were first inserted.
    pub closed spec fn key_seq(&self) -> Seq<Seq<char>> {
        self.entries@.map_values(|e: (String, String)| e.0@)
    }

    /// The entry at `i` holds the key's value.
    proof fn lemma_pos(&self, i: int)
        requires
            self.wf(),
            0 <= i < self.entries.len(),
        ensures
            self.has(self.entries@[i].0@),
            self.pos(self.entries@[i].0@) == i,
    {
        let k = self.entries@[i].0@;
        assert(self.has(k));
        let p = self.pos(k);
        if p != i {
            if p < i {
            } else {
            }
        }
    }

    /// The number of keys.
    pub closed spec fn spec_len(&self) -> nat {
        self.entries@.len()
    }

    /// An empty map.
    pub fn new() -> (m: Self)
        ensures
            m.wf(),
            m@ == Map::<Seq<char>, Seq<char>>::empty(),
            m@.dom().finite(),
            m.spec_len() == 0,
    {
        let m = StrMap { entries: Vec::new() };
        assert(m@ =~= Map::<Seq<char>, Seq<char>>::empty());
        m
    }

    /// The number of keys.
    pub fn len(&self) -> (n: usize)
        requires
            self.wf(),
        ensures
            n == self.spec_len(),
            n == self@.dom().len(),
    {
        proof {
            self.lemma_len();
        }
        self.entries.len()
    }

    /// The domain holds exactly one key per entry.
    pub proof fn lemma_len(&self)
        requires
            self.wf(),
        ensures
            self@.dom().finite(),
            self@.dom().len() == self.spec_len(),
    {
        let ks = self.key_seq();
        assert(ks.no_duplicates()) by {
            assert forall|i: int, j: int| 0 <= i < ks.len() && 0 <= j < ks.len() && i != j implies ks[i] != ks[j] by {
                if i < j {
                } else {
                }
            }
        }
        assert(self@.dom() =~= ks.to_set()) by {
            assert forall|k: Seq<char>| self@.dom().contains(k) implies ks.to_set().contains(k) by {
                let i = choose|i: int| 0 <= i < self.entries.len() && self.entries@[i].0@ == k;
                assert(ks[i] == k);
            }
            assert forall|k: Seq<char>| ks.to_set().contains(k) implies self@.dom().contains(k) by {
                let i = choose|i: int| 0 <= i < ks.len() && ks[i] == k;
                assert(self.entries@[i].0@ == k);
            }
        }
        ks.unique_seq_to_set();
    }

    fn find(&self, key: &str) -> (r: Option<usize>)
        requires
            self.wf(),
        ensures
            r is None ==> !self.has(key@),
            r matches Some(i) ==> i < self.entries.len() && self.entries@[i as int].0@ == key@,
    {
        let mut i: usize = 0;
        while i < self.entries.len()
            invariant
                i <= self.entries.len(),
                forall|j: int| 0 <= j < i ==> self.entries@[j].0@ != key@,
            decreases self.entries.len() - i,
        {
            if str_eq(self.entries[i].0.as_str(), key) {
                return Some(i);
            }
            i = i + 1;
        }
        None
    }

    /// The value stored under `key`, if any.
    pub fn get(&self, key: &str) -> (r: Option<&String>)
        requires
            self.wf(),
        ensures
            r is Some <==> self@.contains_key(key@),
            r matches Some(v) ==> v@ == self@[key@],
    {
        match self.find(key) {
            Some(i) => {
                proof {
                    self.lemma_pos(i as int);
                }
                Some(&self.entries[i].1)
            },
            None => None,
        }
    }

    /// Whether `key` is present.
    pub fn contains_key(&self, key: &str) -> (r: bool)
        requires
            self.wf(),
        ensures
            r == self@.contains_key(key@),
    {
        self.find(key).is_some()
    }

    /// Stores `value` under `key`, replacing any previous value.
    pub fn insert(&mut self, key: String, value: String)
        requires
            old(self).wf(),
        ensures
            final(self).wf(),
            final(self)@ == old(self)@.insert(key@, value@),
            final(self)@.dom().finite(),
            final(self)@.dom().len() == old(self)@.dom().len() + (if old(self)@.contains_key(key@) { 0int } else { 1int }),
    {
        proof {
            old(self).lemma_len();
        }
        let ghost k = key@;
        let ghost v = value@;
        match self.find(key.as_str()) {
            Some(i) => {
                let ghost before = *self;
                self.entries.set(i, (key, value));
                proof {
                    assert(self.wf()) by {
                        assert forall|a: int, b: int| 0 <= a < b < self.entries.len()
                            implies self.entries@[a].0@ != self.entries@[b].0@ by {
                            assert(before.entries@[a].0@ != before.entries@[b].0@);
                        }
                    }
                    assert forall|q: Seq<char>| #[trigger] self@.contains_key(q) == before@.insert(k, v).contains_key(q) by {
                        if self.has(q) {
                            let j = choose|j: int| 0 <= j < self.entries.len() && self.entries@[j].0@ == q;
                            if j != i {
                                assert(before.entries@[j].0@ == q);
                            }
                        }
                        if before.has(q) {
                            let j = choose|j: int| 0 <= j < before.entries.len() && before.entries@[j].0@ == q;
                            assert(self.entries@[j].0@ == q);
                        }
                    }
                    assert forall|q: Seq<char>| #[trigger] self@.contains_key(q) implies self@[q] == before@.insert(k, v)[q] by {
                        let j = self.pos(q);
                        self.lemma_pos(j);
                        if j == i {
                        } else {
                            before.lemma_pos(j);
                        }
                    }
                    assert(self@ =~= before@.insert(k, v));
                    self.lemma_len();
                }
            },
            None => {
                let ghost before = *self;
                self.entries.push((key, value));
                proof {
                    let n = before.entries.len() as int;
                    assert(self.wf());
                    assert forall|q: Seq<char>| #[trigger] self@.contains_key(q) == before@.insert(k, v).contains_key(q) by {
                        if self.has(q) {
                            let j = choose|j: int| 0 <= j < self.entries.len() && self.entries@[j].0@ == q;
                            if j != n {
                                assert(before.entries@[j].0@ == q);
                            }
                        }
                        if before.has(q) {
                            let j = choose|j: int| 0 <= j < before.entries.len() && before.entries@[j].0@ == q;
                            assert(self.entries@[j].0@ == q);
                        }
                        if q == k {
                            assert(self.entries@[n].0@ == q);
                        }
                    }
                    assert forall|q: Seq<char>| #[trigger] self@.contains_key(q) implies self@[q] == before@.insert(k, v)[q] by {
                        let j = self.pos(q);
                        self.lemma_pos(j);
                        if j == n {
                        } else {
                            before.lemma_pos(j);
                        }
                    }
                    assert(self@ =~= before@.insert(k, v));
                    self.lemma_len();
                }
            },
        }
    }
}

impl View for StrMap {
    type V = Map<Seq<char>, Seq<char>>;

    closed spec fn view(&self) -> Map<Seq<char>, Seq<char>> {
        Map::new(
            |k: Seq<char>| self.has(k),
            |k: Seq<char>| self.entries@[self.pos(k)].1@,
        )
    }
}

} // verus!
