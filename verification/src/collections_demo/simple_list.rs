//! A growable list that renders its items separated by commas.

use vstd::prelude::*;
use crate::text::{i32_to_string, join, join_seq, signed_decimal, views};

verus! {

/// Items in insertion order.
pub struct SimpleList<T> {
    items: Vec<T>,
}

impl<T> View for SimpleList<T> {
    type V = Seq<T>;

    closed spec fn view(&self) -> Seq<T> {
        self.items@
    }
}

impl<T> SimpleList<T> {
    /// An empty list.
    pub fn new() -> (l: Self)
        ensures
            l@ == Seq::<T>::empty(),
    {
        SimpleList { items: Vec::new() }
    }

    /// Appends `item`.
    pub fn add(&mut self, item: T)
        ensures
            final(self)@ == old(self)@.push(item),
    {
        self.items.push(item);
    }
}

/// The decimal renderings of a sequence of integers.
pub open spec fn rendered(s: Seq<i32>) -> Seq<Seq<char>> {
    s.map_values(|x: i32| signed_decimal(x as int))
}

impl SimpleList<i32> {
    /// The items in decimal, joined by ", ".
    pub fn display(&self) -> (r: String)
        ensures
            r@ == join_seq(rendered(self@), ", "@),
    {
        let mut parts: Vec<String> = Vec::new();
        let mut i: usize = 0;
        while i < self.items.len()
            invariant
                i <= self.items.len(),
                parts.len() == i,
                views(parts@) == rendered(self.items@.subrange(0, i as int)),
            decreases self.items.len() - i,
        {
            let s = i32_to_string(self.items[i]);
            let ghost before = parts@;
            parts.push(s);
            assert forall|j: int| 0 <= j <= i implies #[trigger] views(parts@)[j] == rendered(self.items@.subrange(0, i + 1))[j] by {
                if j < i {
                    assert(parts@[j] == before[j]);
                    assert(views(before)[j] == rendered(self.items@.subrange(0, i as int))[j]);
                }
            }
            assert(views(parts@) =~= rendered(self.items@.subrange(0, i + 1)));
            i = i + 1;
        }
        assert(self.items@.subrange(0, self.items.len() as int) =~= self.items@);
        join(&parts, ", ")
    }
}

impl SimpleList<String> {
    /// The items joined by ", ".
    pub fn display(&self) -> (r: String)
        ensures
            r@ == join_seq(views(self@), ", "@),
    {
        join(&self.items, ", ")
    }
}

} // verus!
