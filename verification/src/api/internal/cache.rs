//! A string cache where setting a key replaces its previous value.

use vstd::prelude::*;
use crate::strmap::StrMap;

verus! {

/// Cached values by key; each key occurs once.
pub struct Cache {
    items: StrMap,
}

impl View for Cache {
    type V = Map<Seq<char>, Seq<char>>;

    closed spec fn view(&self) -> Map<Seq<char>, Seq<char>> {
        self.items@
    }
}

impl Cache {
    /// The internal map keeps its keys distinct.
    #[verifier::type_invariant]
    spec fn wf(&self) -> bool {
        self.items.wf()
    }

    /// An empty cache.
    pub fn new() -> (c: Self)
        ensures
            c@ == Map::<Seq<char>, Seq<char>>::empty(),
            c@.dom().finite(),
    {
        Cache { items: StrMap::new() }
    }

    /// Stores `value` under `key`, dropping any earlier value for it.
    pub fn set(&mut self, key: &str, value: &str)
        ensures
            final(self)@ == old(self)@.insert(key@, value@),
            final(self)@.dom().finite(),
            final(self)@.dom().len() == old(self)@.dom().len() + (if old(self)@.contains_key(key@) { 0int } else { 1int }),
    {
        proof {
            use_type_invariant(&*self);
        }
        let mut items = StrMap::new();
        std::mem::swap(&mut items, &mut self.items);
        items.insert(String::from_str(key), String::from_str(value));
        self.items = items;
    }

    /// The value stored under `key`.
    pub fn get(&self, key: &str) -> (r: Option<&str>)
        ensures
            r is Some <==> self@.contains_key(key@),
            r matches Some(v) ==> v@ == self@[key@],
    {
        proof {
            use_type_invariant(self);
        }
        match self.items.get(key) {
            Some(v) => Some(v.as_str()),
            None => None,
        }
    }

    /// The number of keys.
    pub fn len(&self) -> (n: usize)
        ensures
            n == self@.dom().len(),
    {
        proof {
            use_type_invariant(self);
        }
        self.items.len()
    }
}

/// Reading a key right after setting it gives the value set; other keys keep
/// their values.
pub proof fn lemma_get_after_set(m: Map<Seq<char>, Seq<char>>, key: Seq<char>, value: Seq<char>, other: Seq<char>)
    requires
        other != key,
    ensures
        m.insert(key, value).contains_key(key),
        m.insert(key, value)[key] == value,
        m.insert(key, value).contains_key(other) == m.contains_key(other),
        m.contains_key(other) ==> m.insert(key, value)[other] == m[other],
{
}

} // verus!
