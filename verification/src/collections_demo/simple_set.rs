//! A set of strings kept as a vector without repeats.

use vstd::prelude::*;
use crate::text::{str_eq, views};

verus! {

/// Distinct strings.
pub struct SimpleSet {
    data: Vec<String>,
}

impl View for SimpleSet {
    type V = Set<Seq<char>>;

    closed spec fn view(&self) -> Set<Seq<char>> {
        views(self.data@).to_set()
    }
}

impl SimpleSet {
    /// No string occurs twice.
    #[verifier::type_invariant]
    spec fn wf(&self) -> bool {
        views(self.data@).no_duplicates()
    }

    /// An empty set.
    pub fn new() -> (s: Self)
        ensures
            s@ == Set::<Seq<char>>::empty(),
            s@.finite(),
    {
        let s = SimpleSet { data: Vec::new() };
        assert(views(s.data@).to_set() =~= Set::<Seq<char>>::empty());
        s
    }

    /// Adds `item`; true when it was not there before.
    pub fn insert(&mut self, item: &str) -> (added: bool)
        ensures
            added == !old(self)@.contains(item@),
            final(self)@ == old(self)@.insert(item@),
            final(self)@.finite(),
            final(self)@.len() == old(self)@.len() + (if added { 1int } else { 0int }),
    {
        proof {
            use_type_invariant(&*self);
            views(self.data@).unique_seq_to_set();
        }
        if self.contains(item) {
            assert(self@.insert(item@) =~= self@);
            false
        } else {
            let ghost before = views(self.data@);
            let mut data: Vec<String> = Vec::new();
            std::mem::swap(&mut data, &mut self.data);
            data.push(String::from_str(item));
            proof {
                assert(views(data@) =~= before.push(item@));
                assert forall|i: int, j: int| 0 <= i < views(data@).len() && 0 <= j < views(data@).len() && i != j
                    implies views(data@)[i] != views(data@)[j] by {
                    if i < before.len() && j < before.len() {
                    } else if i == before.len() {
                        assert(before.contains(views(data@)[j]));
                    } else {
                        assert(before.contains(views(data@)[i]));
                    }
                }
            }
            self.data = data;
            assert(views(self.data@) =~= before.push(item@));
            assert(views(self.data@).to_set() =~= before.to_set().insert(item@)) by {
                assert forall|x: Seq<char>| #[trigger] views(self.data@).to_set().contains(x) == before.to_set().insert(item@).contains(x) by {
                    if views(self.data@).contains(x) && x != item@ {
                        let j = choose|j: int| 0 <= j < views(self.data@).len() && views(self.data@)[j] == x;
                        assert(before[j] == x);
                    }
                    if before.contains(x) {
                        let j = choose|j: int| 0 <= j < before.len() && before[j] == x;
                        assert(views(self.data@)[j] == x);
                    }
                    if x == item@ {
                        assert(views(self.data@)[before.len() as int] == x);
                    }
                }
            }
            proof {
                assert(views(self.data@).no_duplicates());
                views(self.data@).unique_seq_to_set();
            }
            true
        }
    }

    /// Whether `item` is in the set.
    pub fn contains(&self, item: &str) -> (r: bool)
        ensures
            r == self@.contains(item@),
    {
        let mut i: usize = 0;
        while i < self.data.len()
            invariant
                i <= self.data.len(),
                forall|j: int| 0 <= j < i ==> self.data@[j]@ != item@,
            decreases self.data.len() - i,
        {
            if str_eq(self.data[i].as_str(), item) {
                assert(views(self.data@)[i as int] == item@);
                return true;
            }
            i = i + 1;
        }
        assert(!views(self.data@).contains(item@)) by {
            if views(self.data@).contains(item@) {
                let j = choose|j: int| 0 <= j < views(self.data@).len() && views(self.data@)[j] == item@;
                assert(self.data@[j]@ == item@);
            }
        }
        false
    }

    /// The number of strings.
    pub fn len(&self) -> (n: usize)
        ensures
            n == self@.len(),
    {
        proof {
            use_type_invariant(self);
            views(self.data@).unique_seq_to_set();
        }
        self.data.len()
    }
}

} // verus!
