//! A last-in, first-out stack over a `Vec`.

use vstd::prelude::*;

verus! {

/// A stack whose top is the last element of its view.
pub struct Stack<T> {
    elements: Vec<T>,
}

impl<T> View for Stack<T> {
    type V = Seq<T>;

    closed spec fn view(&self) -> Seq<T> {
        self.elements@
    }
}

impl<T> Stack<T> {
    /// An empty stack.
    pub fn new() -> (s: Self)
        ensures
            s@ == Seq::<T>::empty(),
    {
        Stack { elements: Vec::new() }
    }

    /// Puts `item` on top.
    pub fn push(&mut self, item: T)
        ensures
            final(self)@ == old(self)@.push(item),
    {
        self.elements.push(item);
    }

    /// Removes and returns the top item; `None` on an empty stack.
    pub fn pop(&mut self) -> (r: Option<T>)
        ensures
            old(self)@.len() == 0 ==> r is None && final(self)@ == old(self)@,
            old(self)@.len() > 0 ==> r == Some(old(self)@.last()) && final(self)@ == old(self)@.drop_last(),
    {
        self.elements.pop()
    }

    /// The top item without removing it.
    pub fn peek(&self) -> (r: Option<&T>)
        ensures
            self@.len() == 0 ==> r is None,
            self@.len() > 0 ==> r == Some(&self@.last()),
    {
        self.elements.last()
    }

    /// The number of items.
    pub fn len(&self) -> (n: usize)
        ensures
            n == self@.len(),
    {
        self.elements.len()
    }

    /// Whether the stack holds no items.
    pub fn is_empty(&self) -> (r: bool)
        ensures
            r == (self@.len() == 0),
    {
        self.elements.is_empty()
    }
}

/// Popping right after a push gives back the pushed item and the stack as it was.
pub proof fn lemma_pop_undoes_push<T>(s: Seq<T>, item: T)
    ensures
        s.push(item).len() > 0,
        s.push(item).last() == item,
        s.push(item).drop_last() == s,
{
    assert(s.push(item).drop_last() =~= s);
}

} // verus!
