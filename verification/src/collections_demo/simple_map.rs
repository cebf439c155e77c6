//! A string-to-string map.

use vstd::prelude::*;
use crate::strmap::StrMap;

verus! {

/// Values by key.
pub struct SimpleMap {
    data: StrMap,
}

impl View for SimpleMap {
    type V = Map<Seq<char>, Seq<char>>;

    closed spec fn view(&self) -> Map<Seq<char>, Seq<char>> {
        self.data@
    }
}

impl SimpleMap {
    /// The internal map keeps its keys distinct.
    #[verifier::type_invariant]
    spec fn wf(&self) -> bool {
        self.data.wf()
    }

    /// An empty map.
    pub fn new() -> (m: Self)
        ensures
            m@ == Map::<Seq<char>, Seq<char>>::empty(),
            m@.dom().finite(),
    {
        SimpleMap { data: StrMap::new() }
    }

    /// Stores `value` under `key`, replacing any previous value.
    pub fn insert(&mut self, key: &str, value: &str)
        ensures
            final(self)@ == old(self)@.insert(key@, value@),
            final(self)@.dom().finite(),
            final(self)@.dom().len() == old(self)@.dom().len() + (if old(self)@.contains_key(key@) { 0int } else { 1int }),
    {
        proof {
            use_type_invariant(&*self);
        }
        let mut data = StrMap::new();
        std::mem::swap(&mut data, &mut self.data);
        data.insert(String::from_str(key), String::from_str(value));
        self.data = data;
    }

    /// The value stored under `key`.
    pub fn get(&self, key: &str) -> (r: Option<&String>)
        ensures
            r is Some <==> self@.contains_key(key@),
            r matches Some(v) ==> v@ == self@[key@],
    {
        proof {
            use_type_invariant(self);
        }
        self.data.get(key)
    }

    /// The number of keys.
    pub fn len(&self) -> (n: usize)
        ensures
            n == self@.dom().len(),
    {
        proof {
            use_type_invariant(self);
        }
        self.data.len()
    }
}

} // verus!
