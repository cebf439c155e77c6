//! The core user model shared by the utility and service layers.

use vstd::prelude::*;
use crate::text::{concat3, decimal, u64_to_string};

verus! {

/// A registered user.
#[derive(Debug, Clone)]
pub struct User {
    pub id: u64,
    pub name: String,
    pub email: String,
}

/// "<name> (ID: <id>)".
pub open spec fn display_name_text(name: Seq<char>, id: nat) -> Seq<char> {
    name + " (ID: "@ + decimal(id) + ")"@
}

impl User {
    /// A user with the given fields.
    pub fn new(id: u64, name: &str, email: &str) -> (u: Self)
        ensures
            u.id == id,
            u.name@ == name@,
            u.email@ == email@,
    {
        User { id, name: String::from_str(name), email: String::from_str(email) }
    }

    /// The name followed by the id in brackets.
    pub fn display_name(&self) -> (r: String)
        ensures
            r@ == display_name_text(self.name@, self.id as nat),
    {
        let id = u64_to_string(self.id);
        let mut r = concat3(self.name.as_str(), " (ID: ", id.as_str());
        r.append(")");
        r
    }
}

/// An order of a user; what an item holds (product, quantity, price) is up to
/// the caller.
pub struct Order<I> {
    pub id: u64,
    pub user_id: u64,
    pub items: Vec<I>,
}

impl<I> Order<I> {
    /// An order with no items.
    pub fn new(id: u64, user_id: u64) -> (o: Self)
        ensures
            o.id == id,
            o.user_id == user_id,
            o.items@ == Seq::<I>::empty(),
    {
        Order { id, user_id, items: Vec::new() }
    }

    /// Appends an item.
    pub fn add_item(&mut self, item: I)
        ensures
            final(self).id == old(self).id,
            final(self).user_id == old(self).user_id,
            final(self).items@ == old(self).items@.push(item),
    {
        self.items.push(item);
    }
}

} // verus!
