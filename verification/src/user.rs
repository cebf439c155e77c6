//! Validated user records and an in-memory repository of them.

use vstd::prelude::*;
use crate::text::{concat3, contains_char, str_eq};

verus! {

/// A validated user: non-empty name, an e-mail address holding `@`, age at most 150.
#[derive(Debug, Clone, PartialEq)]
pub struct User {
    pub name: String,
    pub email: String,
    pub age: u32,
}

/// The reasons `User::new` refuses its input, checked in this order.
pub open spec fn user_error(name: Seq<char>, email: Seq<char>, age: nat) -> Option<Seq<char>> {
    if name.len() == 0 {
        Some("用户名不能为空"@)
    } else if !email.contains('@') {
        Some("邮箱格式不正确"@)
    } else if age > 150 {
        Some("年龄不合理"@)
    } else {
        None
    }
}

/// Whether a user of this age counts as an adult.
pub open spec fn adult(age: nat) -> bool {
    age >= 18
}

/// The greeting for a name: "你好，" + name + "！".
pub open spec fn greeting_text(name: Seq<char>) -> Seq<char> {
    "你好，"@ + name + "！"@
}

impl User {
    /// Builds a user after validating each field.
    pub fn new(name: &str, email: &str, age: u32) -> (r: Result<User, String>)
        ensures
            match user_error(name@, email@, age as nat) {
                Some(msg) => r matches Err(e) && e@ == msg,
                None => r matches Ok(u) && u.name@ == name@ && u.email@ == email@ && u.age == age,
            },
    {
        if name.unicode_len() == 0 {
            return Err(String::from_str("用户名不能为空"));
        }
        if !contains_char(email, '@') {
            return Err(String::from_str("邮箱格式不正确"));
        }
        if age > 150 {
            return Err(String::from_str("年龄不合理"));
        }
        Ok(User { name: String::from_str(name), email: String::from_str(email), age })
    }

    /// Whether the user is 18 or older.
    pub fn is_adult(&self) -> (r: bool)
        ensures
            r == adult(self.age as nat),
    {
        self.age >= 18
    }

    /// "你好，<name>！".
    pub fn greeting(&self) -> (r: String)
        ensures
            r@ == greeting_text(self.name@),
    {
        concat3("你好，", self.name.as_str(), "！")
    }
}

/// The users of `s` that are adults, in order.
pub open spec fn adults_of(s: Seq<User>) -> Seq<User>
    decreases s.len(),
{
    if s.len() == 0 {
        Seq::empty()
    } else if adult(s.last().age as nat) {
        adults_of(s.drop_last()).push(s.last())
    } else {
        adults_of(s.drop_last())
    }
}

/// The index of the first user named `name`, or the length when there is none.
pub open spec fn first_named(s: Seq<User>, name: Seq<char>) -> int
    decreases s.len(),
{
    if s.len() == 0 {
        0
    } else if s[0].name@ == name {
        0
    } else {
        1 + first_named(s.drop_first(), name)
    }
}

/// An ordered collection of users.
pub struct UserRepository {
    users: Vec<User>,
}

impl View for UserRepository {
    type V = Seq<User>;

    closed spec fn view(&self) -> Seq<User> {
        self.users@
    }
}

impl UserRepository {
    /// An empty repository.
    pub fn new() -> (r: Self)
        ensures
            r@ == Seq::<User>::empty(),
    {
        UserRepository { users: Vec::new() }
    }

    /// Appends a user.
    pub fn add_user(&mut self, user: User)
        ensures
            final(self)@ == old(self)@.push(user),
    {
        self.users.push(user);
    }

    /// The first user whose name is `name`.
    pub fn find_by_name(&self, name: &str) -> (r: Option<&User>)
        ensures
            first_named(self@, name@) <= self@.len(),
            match r {
                Some(u) => first_named(self@, name@) < self@.len() && *u == self@[first_named(self@, name@)],
                None => first_named(self@, name@) == self@.len(),
            },
    {
        let mut i: usize = 0;
        assert(self@.subrange(0, self@.len() as int) =~= self@);
        while i < self.users.len()
            invariant
                i <= self.users.len(),
                first_named(self@, name@) == i + first_named(self@.subrange(i as int, self@.len() as int), name@),
                self@ == self.users@,
            decreases self.users.len() - i,
        {
            let ghost rest = self@.subrange(i as int, self@.len() as int);
            assert(rest[0] == self@[i as int]);
            assert(rest.drop_first() =~= self@.subrange(i + 1, self@.len() as int));
            if str_eq(self.users[i].name.as_str(), name) {
                return Some(&self.users[i]);
            }
            i = i + 1;
        }
        assert(self@.subrange(i as int, self@.len() as int).len() == 0);
        None
    }

    /// The number of users.
    pub fn count(&self) -> (n: usize)
        ensures
            n == self@.len(),
    {
        self.users.len()
    }

    /// The adult users, in order.
    pub fn adults(&self) -> (r: Vec<&User>)
        ensures
            r@.map_values(|u: &User| *u) == adults_of(self@),
    {
        let mut r: Vec<&User> = Vec::new();
        let mut i: usize = 0;
        while i < self.users.len()
            invariant
                i <= self.users.len(),
                self@ == self.users@,
                r@.map_values(|u: &User| *u) == adults_of(self@.subrange(0, i as int)),
            decreases self.users.len() - i,
        {
            let ghost pre = self@.subrange(0, i as int);
            assert(self@.subrange(0, i + 1).drop_last() =~= pre);
            if self.users[i].is_adult() {
                r.push(&self.users[i]);
                assert(r@.map_values(|u: &User| *u) =~= adults_of(pre).push(self@[i as int]));
            }
            i = i + 1;
        }
        assert(self@.subrange(0, i as int) =~= self@);
        r
    }
}

} // verus!
