//! A user service that validates addresses, refuses duplicates and numbers
//! users from 1 in order of registration.

use vstd::prelude::*;
use crate::core_crate::{Order, User};
use crate::text::{concat2, str_eq};
use crate::utils_crate::{email_ok, validate_email};

verus! {

/// The registered users; the `i`-th holds id `i + 1`.
pub struct UserService {
    users: Vec<User>,
}

impl View for UserService {
    type V = Seq<User>;

    closed spec fn view(&self) -> Seq<User> {
        self.users@
    }
}

/// Whether some user in `s` has address `email`.
pub open spec fn email_taken(s: Seq<User>, email: Seq<char>) -> bool {
    exists|i: int| 0 <= i < s.len() && #[trigger] s[i].email@ == email
}

impl UserService {
    /// Ids run from 1 in order; every address passes the check and no two
    /// users share one.
    pub closed spec fn wf(&self) -> bool {
        &&& forall|i: int| 0 <= i < self.users.len() ==> #[trigger] self.users@[i].id == i + 1
        &&& forall|i: int| 0 <= i < self.users.len() ==> email_ok(#[trigger] self.users@[i].email@)
        &&& forall|i: int, j: int|
            #![trigger self.users@[i], self.users@[j]]
            0 <= i < j < self.users.len() ==> self.users@[i].email@ != self.users@[j].email@
    }

    /// A service with no users.
    pub fn new() -> (s: Self)
        ensures
            s.wf(),
            s@ == Seq::<User>::empty(),
    {
        UserService { users: Vec::new() }
    }

    /// Registers a user with the next id, unless the address fails the
    /// check or is already registered.
    pub fn register(&mut self, name: &str, email: &str) -> (r: Result<&User, String>)
        requires
            old(self).wf(),
            old(self)@.len() < usize::MAX,
        ensures
            final(self).wf(),
            !email_ok(email@) ==> final(self)@ == old(self)@
                && (r matches Err(e) && e@ == "无效的邮箱地址: "@ + email@),
            email_ok(email@) && email_taken(old(self)@, email@) ==> final(self)@ == old(self)@
                && (r matches Err(e) && e@ == "邮箱已注册: "@ + email@),
            email_ok(email@) && !email_taken(old(self)@, email@) ==> {
                &&& final(self)@.len() == old(self)@.len() + 1
                &&& final(self)@.drop_last() == old(self)@
                &&& final(self)@.last().id == old(self)@.len() + 1
                &&& final(self)@.last().name@ == name@
                &&& final(self)@.last().email@ == email@
                &&& r matches Ok(u) && *u == final(self)@.last()
            },
    {
        if !validate_email(email) {
            return Err(concat2("无效的邮箱地址: ", email));
        }
        let mut i: usize = 0;
        while i < self.users.len()
            invariant
                i <= self.users.len(),
                self.wf(),
                email_ok(email@),
                self@ == old(self)@,
                forall|j: int| 0 <= j < i ==> self.users@[j].email@ != email@,
            decreases self.users.len() - i,
        {
            if str_eq(self.users[i].email.as_str(), email) {
                assert(self.users@[i as int].email@ == email@);
                return Err(concat2("邮箱已注册: ", email));
            }
            i = i + 1;
        }
        assert(!email_taken(self@, email@));
        let id = self.users.len() as u64 + 1;
        let user = User::new(id, name, email);
        self.users.push(user);
        assert(self.users@.drop_last() =~= old(self).users@);
        let last = self.users.len() - 1;
        Ok(&self.users[last])
    }

    /// The user with id `id`.
    pub fn find_user(&self, id: u64) -> (r: Option<&User>)
        requires
            self.wf(),
        ensures
            1 <= id <= self@.len() ==> r == Some(&self@[id - 1]),
            !(1 <= id <= self@.len()) ==> r is None,
    {
        let mut i: usize = 0;
        while i < self.users.len()
            invariant
                self.wf(),
                i <= self.users.len(),
                forall|j: int| 0 <= j < i ==> self.users@[j].id != id,
            decreases self.users.len() - i,
        {
            if self.users[i].id == id {
                return Some(&self.users[i]);
            }
            i = i + 1;
        }
        if 1 <= id && id <= self.users.len() as u64 {
            assert(self.users@[id - 1].id == id);
        }
        None
    }

    /// All users, in order of registration.
    pub fn list_users(&self) -> (r: &[User])
        ensures
            r@ == self@,
    {
        self.users.as_slice()
    }
}

/// Registration numbers users from 1 in order (the `i`-th user holds id
/// `i + 1`), admits only addresses that pass the check, and never lets two
/// users share an address.
pub proof fn lemma_registered_users(s: &UserService)
    requires
        s.wf(),
    ensures
        forall|i: int| 0 <= i < s@.len() ==> #[trigger] s@[i].id == i + 1,
        forall|i: int| 0 <= i < s@.len() ==> email_ok(#[trigger] s@[i].email@),
        forall|i: int, j: int| #![trigger s@[i], s@[j]] 0 <= i < j < s@.len() ==> s@[i].email@ != s@[j].email@,
{
}

/// The position of the first order with id `id`, or the length when there is none.
pub open spec fn first_order_with_id<I>(s: Seq<Order<I>>, id: u64) -> int
    decreases s.len(),
{
    if s.len() == 0 {
        0
    } else if s[0].id == id {
        0
    } else {
        1 + first_order_with_id(s.drop_first(), id)
    }
}

/// The orders of `s` placed by `user_id`, in order.
pub open spec fn orders_of<I>(s: Seq<Order<I>>, user_id: u64) -> Seq<Order<I>>
    decreases s.len(),
{
    if s.len() == 0 {
        Seq::empty()
    } else if s.last().user_id == user_id {
        orders_of(s.drop_last(), user_id).push(s.last())
    } else {
        orders_of(s.drop_last(), user_id)
    }
}

/// Orders numbered from 1 in order of creation.
pub struct OrderService<I> {
    orders: Vec<Order<I>>,
}

impl<I> View for OrderService<I> {
    type V = Seq<Order<I>>;

    closed spec fn view(&self) -> Seq<Order<I>> {
        self.orders@
    }
}

impl<I> OrderService<I> {
    /// A service with no orders.
    pub fn new() -> (s: Self)
        ensures
            s@ == Seq::<Order<I>>::empty(),
    {
        OrderService { orders: Vec::new() }
    }

    /// Opens an empty order for `user_id` under the next number and hands it
    /// out for filling; the service keeps whatever the caller leaves in it.
    pub fn create_order(&mut self, user_id: u64) -> (r: &mut Order<I>)
        requires
            old(self)@.len() < u64::MAX,
        ensures
            r.id == old(self)@.len() + 1,
            r.user_id == user_id,
            r.items@ == Seq::<I>::empty(),
            final(self)@ == old(self)@.push(*final(r)),
    {
        let id = self.orders.len() as u64 + 1;
        self.orders.push(Order::new(id, user_id));
        let last = self.orders.len() - 1;
        &mut self.orders[last]
    }

    /// The first order numbered `id`.
    pub fn get_order(&self, id: u64) -> (r: Option<&Order<I>>)
        ensures
            first_order_with_id(self@, id) <= self@.len(),
            match r {
                Some(o) => first_order_with_id(self@, id) < self@.len() && *o == self@[first_order_with_id(self@, id)],
                None => first_order_with_id(self@, id) == self@.len(),
            },
    {
        let mut i: usize = 0;
        assert(self@.subrange(0, self@.len() as int) =~= self@);
        while i < self.orders.len()
            invariant
                i <= self.orders.len(),
                self@ == self.orders@,
                first_order_with_id(self@, id) == i + first_order_with_id(self@.subrange(i as int, self@.len() as int), id),
            decreases self.orders.len() - i,
        {
            let ghost rest = self@.subrange(i as int, self@.len() as int);
            assert(rest[0] == self@[i as int]);
            assert(rest.drop_first() =~= self@.subrange(i + 1, self@.len() as int));
            if self.orders[i].id == id {
                return Some(&self.orders[i]);
            }
            i = i + 1;
        }
        assert(self@.subrange(i as int, self@.len() as int).len() == 0);
        None
    }

    /// The orders placed by `user_id`, in order of creation.
    pub fn user_orders(&self, user_id: u64) -> (r: Vec<&Order<I>>)
        ensures
            r@.map_values(|o: &Order<I>| *o) == orders_of(self@, user_id),
    {
        let mut r: Vec<&Order<I>> = Vec::new();
        let mut i: usize = 0;
        while i < self.orders.len()
            invariant
                i <= self.orders.len(),
                self@ == self.orders@,
                r@.map_values(|o: &Order<I>| *o) == orders_of(self@.subrange(0, i as int), user_id),
            decreases self.orders.len() - i,
        {
            let ghost pre = self@.subrange(0, i as int);
            assert(self@.subrange(0, i + 1).drop_last() =~= pre);
            if self.orders[i].user_id == user_id {
                r.push(&self.orders[i]);
                assert(r@.map_values(|o: &Order<I>| *o) =~= orders_of(pre, user_id).push(self@[i as int]));
            }
            i = i + 1;
        }
        assert(self@.subrange(0, i as int) =~= self@);
        r
    }
}

} // verus!
