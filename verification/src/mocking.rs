//! Test doubles behind two service interfaces: a user store that keeps
//! users in memory, a notifier that records what it was asked to send, and a
//! registration service written against the interfaces only.

use vstd::prelude::*;
use std::collections::HashMap;
use vstd::std_specs::iter::IteratorSpec;
use vstd::std_specs::hash::spec_values_iter;
use crate::text::{concat2, concat3, contains_char, decimal, str_eq, u64_to_string};

verus! {

broadcast use vstd::std_specs::hash::group_hash_axioms;

/// A user of the registration service.
#[derive(Debug, Clone, PartialEq)]
pub struct User {
    pub id: u32,
    pub name: String,
    pub email: String,
}

/// The abstract value of a user.
pub struct UserV {
    pub id: u32,
    pub name: Seq<char>,
    pub email: Seq<char>,
}

impl View for User {
    type V = UserV;

    open spec fn view(&self) -> UserV {
        UserV { id: self.id, name: self.name@, email: self.email@ }
    }
}

/// Whether some stored user has address `email`.
pub open spec fn email_in_use(m: Map<u32, UserV>, email: Seq<char>) -> bool {
    exists|k: u32| m.contains_key(k) && (#[trigger] m[k]).email == email
}

/// Storage of users by id.
pub trait UserStore {
    /// The stored users by id.
    spec fn model(&self) -> Map<u32, UserV>;

    /// The store's internal invariant.
    spec fn inv(&self) -> bool;

    /// Whether, in this state, the store refuses to save `user`, and with
    /// which message; `None` when it accepts.
    spec fn save_refusal(&self, user: UserV) -> Option<Seq<char>>;

    /// Stores `user` under its id, unless the store refuses it; a refused
    /// user leaves the store unchanged and the refusal's message is returned.
    fn save(&mut self, user: User) -> (r: Result<(), String>)
        requires
            old(self).inv(),
        ensures
            final(self).inv(),
            final(self).model().dom().finite(),
            match old(self).save_refusal(user@) {
                None => r is Ok && final(self).model() == old(self).model().insert(user.id, user@),
                Some(m) => (r matches Err(e) && e@ == m) && final(self).model() == old(self).model(),
            },
    ;

    /// The user stored under `id`.
    fn find_by_id(&self, id: u32) -> (r: Option<&User>)
        requires
            self.inv(),
        ensures
            r is Some <==> self.model().contains_key(id),
            r matches Some(u) ==> u@ == self.model()[id],
    ;

    /// A stored user with address `email`, if there is one.
    fn find_by_email(&self, email: &str) -> (r: Option<&User>)
        requires
            self.inv(),
        ensures
            r is Some <==> email_in_use(self.model(), email@),
            r matches Some(u) ==> u.email@ == email@ && self.model().contains_key(u.id)
                && self.model()[u.id] == u@,
    ;

    /// Removes the user stored under `id`; a refusal leaves the store unchanged.
    fn delete(&mut self, id: u32) -> (r: Result<(), String>)
        requires
            old(self).inv(),
        ensures
            final(self).inv(),
            final(self).model().dom().finite(),
            r is Ok ==> old(self).model().contains_key(id) && final(self).model() == old(self).model().remove(id),
            r is Err ==> final(self).model() == old(self).model(),
    ;

    /// The number of stored users.
    fn count(&self) -> (n: usize)
        requires
            self.inv(),
        ensures
            self.model().dom().finite(),
            n == self.model().len(),
    ;
}

/// An in-memory store; no two users share an e-mail address.
pub struct FakeUserStore {
    users: HashMap<u32, User>,
}

/// "邮箱 <email> 已被注册".
pub open spec fn email_taken_message(email: Seq<char>) -> Seq<char> {
    "邮箱 "@ + email + " 已被注册"@
}

/// "用户 <id> 不存在".
pub open spec fn missing_user_message(id: nat) -> Seq<char> {
    "用户 "@ + decimal(id) + " 不存在"@
}

impl FakeUserStore {
    /// An empty store.
    pub fn new() -> (s: Self)
        ensures
            s.inv(),
            s.model() == Map::<u32, UserV>::empty(),
            s.model().dom().finite(),
    {
        let s = FakeUserStore { users: HashMap::new() };
        assert(s.model() =~= Map::<u32, UserV>::empty());
        s
    }

    /// The stored ids are finitely many.
    proof fn lemma_model_finite(&self)
        ensures
            self.model().dom().finite(),
    {
        assert(self.model().dom() =~= self.users@.dom());
    }

    /// A stored user, other than the one with id `id`, with address `email`.
    fn email_owner(&self, email: &str, id: u32) -> (r: Option<&User>)
        requires
            self.inv(),
        ensures
            r is Some <==> exists|k: u32| k != id && self.model().contains_key(k) && #[trigger] self.model()[k].email == email@,
            r matches Some(u) ==> u.email@ == email@ && u.id != id,
    {
        proof {
            let s = spec_values_iter(&self.users).remaining();
            assert forall|j: int| 0 <= j < s.len() implies self.users@.values().contains(*#[trigger] s[j]) by {
                assert(s.unref()[j] == *s[j]);
                assert(s.unref().to_set().contains(s.unref()[j]));
            }
        }
        for u in it: self.users.values()
            invariant
                self.inv(),
                forall|j: int| 0 <= j < it.seq().len() ==> self.users@.values().contains(*#[trigger] it.seq()[j]),
                forall|j: int| 0 <= j < it.index() ==> !((#[trigger] it.seq()[j]).email@ == email@ && it.seq()[j].id != id),
        {
            if str_eq(u.email.as_str(), email) && u.id != id {
                proof {
                    assert(*u == *it.seq()[it.index()]);
                    assert(self.users@.values().contains(*u));
                    let k = choose|k: u32| self.users@.contains_key(k) && self.users@[k] == *u;
                    assert(self.model()[k].email == email@);
                }
                return Some(u);
            }
        }
        assert forall|k: u32| k != id && self.model().contains_key(k) implies #[trigger] self.model()[k].email != email@ by {
            assert(self.users@.values().contains(self.users@[k]));
        }
        None
    }
}

impl UserStore for FakeUserStore {
    closed spec fn model(&self) -> Map<u32, UserV> {
        self.users@.map_values(|u: User| u@)
    }

    closed spec fn save_refusal(&self, user: UserV) -> Option<Seq<char>> {
        if exists|k: u32| k != user.id && self.model().contains_key(k) && #[trigger] self.model()[k].email == user.email {
            Some(email_taken_message(user.email))
        } else {
            None
        }
    }

    closed spec fn inv(&self) -> bool {
        &&& forall|k: u32| #[trigger] self.users@.contains_key(k) ==> self.users@[k].id == k
        &&& forall|k1: u32, k2: u32|
            #![trigger self.users@[k1], self.users@[k2]]
            self.users@.contains_key(k1) && self.users@.contains_key(k2) && k1 != k2
                ==> self.users@[k1].email@ != self.users@[k2].email@
    }

    /// Refuses a user whose address belongs to a different stored user.
    fn save(&mut self, user: User) -> (r: Result<(), String>)
        ensures
            r is Err <==> exists|k: u32| k != user.id && old(self).model().contains_key(k)
                && #[trigger] old(self).model()[k].email == user.email@,
            r matches Err(e) ==> e@ == email_taken_message(user.email@),
    {
        if self.email_owner(user.email.as_str(), user.id).is_some() {
            proof {
                self.lemma_model_finite();
            }
            return Err(concat3("邮箱 ", user.email.as_str(), " 已被注册"));
        }
        let ghost old_users = self.users@;
        let ghost u = user;
        let id = user.id;
        self.users.insert(id, user);
        proof {
            assert forall|k: u32| #[trigger] self.users@.contains_key(k) implies self.users@[k].id == k by {}
            assert forall|k1: u32, k2: u32|
                self.users@.contains_key(k1) && self.users@.contains_key(k2) && k1 != k2
                implies #[trigger] self.users@[k1].email@ != #[trigger] self.users@[k2].email@ by {
                if k1 == id {
                    assert(old_users.contains_key(k2));
                    assert(old(self).model()[k2].email == old_users[k2].email@);
                } else if k2 == id {
                    assert(old_users.contains_key(k1));
                    assert(old(self).model()[k1].email == old_users[k1].email@);
                }
            }
            assert(self.model() =~= old(self).model().insert(id, u@));
        }
        proof {
            self.lemma_model_finite();
        }
        Ok(())
    }

    fn find_by_id(&self, id: u32) -> (r: Option<&User>) {
        self.users.get(&id)
    }

    fn find_by_email(&self, email: &str) -> (r: Option<&User>) {
        proof {
            let s = spec_values_iter(&self.users).remaining();
            assert forall|j: int| 0 <= j < s.len() implies self.users@.values().contains(*#[trigger] s[j]) by {
                assert(s.unref()[j] == *s[j]);
                assert(s.unref().to_set().contains(s.unref()[j]));
            }
        }
        for u in it: self.users.values()
            invariant
                self.inv(),
                forall|j: int| 0 <= j < it.seq().len() ==> self.users@.values().contains(*#[trigger] it.seq()[j]),
                forall|j: int| 0 <= j < it.index() ==> (#[trigger] it.seq()[j]).email@ != email@,
        {
            if str_eq(u.email.as_str(), email) {
                proof {
                    assert(*u == *it.seq()[it.index()]);
                    assert(self.users@.values().contains(*u));
                    let k = choose|k: u32| self.users@.contains_key(k) && self.users@[k] == *u;
                    assert(self.model()[k].email == email@);
                }
                return Some(u);
            }
        }
        assert forall|k: u32| self.model().contains_key(k) implies #[trigger] self.model()[k].email != email@ by {
            assert(self.users@.values().contains(self.users@[k]));
        }
        None
    }

    /// Refuses exactly the ids that are not stored.
    fn delete(&mut self, id: u32) -> (r: Result<(), String>)
        ensures
            r is Ok <==> old(self).model().contains_key(id),
            r matches Err(e) ==> e@ == missing_user_message(id as nat),
    {
        let ghost before = self.users@;
        match self.users.remove(&id) {
            Some(_) => {
                assert(self.model() =~= old(self).model().remove(id));
                proof {
                    self.lemma_model_finite();
                }
                Ok(())
            },
            None => {
                assert(self.users@ == before);
                proof {
                    self.lemma_model_finite();
                }
                let digits = u64_to_string(id as u64);
                Err(concat3("用户 ", digits.as_str(), " 不存在"))
            },
        }
    }

    fn count(&self) -> (n: usize) {
        proof {
            assert(self.model().dom() =~= self.users@.dom());
        }
        self.users.len()
    }
}

/// No two ids hold users with the same address, and each user sits under its own id.
pub open spec fn well_keyed(m: Map<u32, UserV>) -> bool {
    &&& forall|k: u32| #[trigger] m.contains_key(k) ==> m[k].id == k
    &&& forall|k1: u32, k2: u32|
        #![trigger m[k1], m[k2]]
        m.contains_key(k1) && m.contains_key(k2) && k1 != k2 ==> m[k1].email != m[k2].email
}

/// Every state of the in-memory store keeps addresses unique and users under their ids.
pub proof fn lemma_fake_store_well_keyed(s: &FakeUserStore)
    requires
        s.inv(),
    ensures
        well_keyed(s.model()),
        s.model().dom().finite(),
{
    assert(s.model().dom() =~= s.users@.dom());
    let m = s.model();
    assert forall|k1: u32, k2: u32|
        m.contains_key(k1) && m.contains_key(k2) && k1 != k2 implies #[trigger] m[k1].email != #[trigger] m[k2].email by {
        assert(s.users@[k1].email@ != s.users@[k2].email@);
    }
}

/// What a notifier has accepted for delivery, in order.
pub trait NotificationService {
    /// The e-mails accepted so far, as (to, subject, body).
    spec fn emails(&self) -> Seq<(Seq<char>, Seq<char>, Seq<char>)>;

    /// The text messages accepted so far, as (phone, message).
    spec fn texts(&self) -> Seq<(Seq<char>, Seq<char>)>;

    /// Whether, in this state, the e-mail would be refused, and with which
    /// message; `None` when it would be accepted.
    spec fn email_refusal(&self, to: Seq<char>, subject: Seq<char>, body: Seq<char>) -> Option<Seq<char>>;

    /// Whether, in this state, the text message would be refused, and with
    /// which message; `None` when it would be accepted.
    spec fn sms_refusal(&self, phone: Seq<char>, message: Seq<char>) -> Option<Seq<char>>;

    /// Sends an e-mail; a refusal records nothing and returns its message.
    fn send_email(&mut self, to: &str, subject: &str, body: &str) -> (r: Result<(), String>)
        ensures
            final(self).texts() == old(self).texts(),
            match old(self).email_refusal(to@, subject@, body@) {
                None => r is Ok && final(self).emails() == old(self).emails().push((to@, subject@, body@)),
                Some(m) => (r matches Err(e) && e@ == m) && final(self).emails() == old(self).emails(),
            },
    ;

    /// Sends a text message; a refusal records nothing and returns its message.
    fn send_sms(&mut self, phone: &str, message: &str) -> (r: Result<(), String>)
        ensures
            final(self).emails() == old(self).emails(),
            match old(self).sms_refusal(phone@, message@) {
                None => r is Ok && final(self).texts() == old(self).texts().push((phone@, message@)),
                Some(m) => (r matches Err(e) && e@ == m) && final(self).texts() == old(self).texts(),
            },
    ;
}

/// A notifier that records each request and can be told to refuse them all.
pub struct MockNotificationService {
    email_calls: Vec<(String, String, String)>,
    sms_calls: Vec<(String, String)>,
    should_fail: bool,
}

impl MockNotificationService {
    /// Whether every request is refused.
    pub closed spec fn failing(&self) -> bool {
        self.should_fail
    }

    /// A notifier with nothing recorded that accepts requests.
    pub fn new() -> (m: Self)
        ensures
            m.emails() == Seq::<(Seq<char>, Seq<char>, Seq<char>)>::empty(),
            m.texts() == Seq::<(Seq<char>, Seq<char>)>::empty(),
            !m.failing(),
    {
        let m = MockNotificationService { email_calls: Vec::new(), sms_calls: Vec::new(), should_fail: false };
        assert(m.emails() =~= Seq::<(Seq<char>, Seq<char>, Seq<char>)>::empty());
        assert(m.texts() =~= Seq::<(Seq<char>, Seq<char>)>::empty());
        m
    }

    /// Makes every later request fail (or succeed again).
    pub fn set_should_fail(&mut self, fail: bool)
        ensures
            final(self).failing() == fail,
            final(self).emails() == old(self).emails(),
            final(self).texts() == old(self).texts(),
    {
        self.should_fail = fail;
    }

    /// The number of e-mails recorded.
    pub fn email_call_count(&self) -> (n: usize)
        ensures
            n == self.emails().len(),
    {
        self.email_calls.len()
    }

    /// The number of text messages recorded.
    pub fn sms_call_count(&self) -> (n: usize)
        ensures
            n == self.texts().len(),
    {
        self.sms_calls.len()
    }

    /// The last e-mail recorded.
    pub fn last_email(&self) -> (r: Option<&(String, String, String)>)
        ensures
            self.emails().len() == 0 ==> r is None,
            self.emails().len() > 0 ==> (r matches Some(t) && (t.0@, t.1@, t.2@) == self.emails().last()),
    {
        self.email_calls.last()
    }

    /// The last text message recorded.
    pub fn last_sms(&self) -> (r: Option<&(String, String)>)
        ensures
            self.texts().len() == 0 ==> r is None,
            self.texts().len() > 0 ==> (r matches Some(t) && (t.0@, t.1@) == self.texts().last()),
    {
        self.sms_calls.last()
    }
}

impl NotificationService for MockNotificationService {
    closed spec fn emails(&self) -> Seq<(Seq<char>, Seq<char>, Seq<char>)> {
        self.email_calls@.map_values(|t: (String, String, String)| (t.0@, t.1@, t.2@))
    }

    closed spec fn email_refusal(&self, to: Seq<char>, subject: Seq<char>, body: Seq<char>) -> Option<Seq<char>> {
        if self.should_fail { Some("模拟：邮件发送失败"@) } else { None }
    }

    closed spec fn sms_refusal(&self, phone: Seq<char>, message: Seq<char>) -> Option<Seq<char>> {
        if self.should_fail { Some("模拟：短信发送失败"@) } else { None }
    }

    closed spec fn texts(&self) -> Seq<(Seq<char>, Seq<char>)> {
        self.sms_calls@.map_values(|t: (String, String)| (t.0@, t.1@))
    }

    /// Refuses exactly when told to fail.
    fn send_email(&mut self, to: &str, subject: &str, body: &str) -> (r: Result<(), String>)
        ensures
            r is Err <==> old(self).failing(),
            r matches Err(e) ==> e@ == "模拟：邮件发送失败"@,
            final(self).failing() == old(self).failing(),
    {
        if self.should_fail {
            return Err(String::from_str("模拟：邮件发送失败"));
        }
        self.email_calls.push((String::from_str(to), String::from_str(subject), String::from_str(body)));
        assert(self.emails() =~= old(self).emails().push((to@, subject@, body@)));
        Ok(())
    }

    /// Refuses exactly when told to fail.
    fn send_sms(&mut self, phone: &str, message: &str) -> (r: Result<(), String>)
        ensures
            r is Err <==> old(self).failing(),
            r matches Err(e) ==> e@ == "模拟：短信发送失败"@,
            final(self).failing() == old(self).failing(),
    {
        if self.should_fail {
            return Err(String::from_str("模拟：短信发送失败"));
        }
        self.sms_calls.push((String::from_str(phone), String::from_str(message)));
        assert(self.texts() =~= old(self).texts().push((phone@, message@)));
        Ok(())
    }
}

/// The in-memory store accepts any user whose address is not in use, and the
/// mock notifier accepts every request unless it was told to fail, when it
/// refuses with its fixed message. With these two, a registration with a
/// non-empty name and an unused address containing '@' therefore succeeds, or,
/// with a failing notifier, keeps the user and returns the notifier's message.
pub proof fn lemma_fake_and_mock_refusals(
    store: &FakeUserStore,
    mock: &MockNotificationService,
    user: UserV,
    to: Seq<char>,
    subject: Seq<char>,
    body: Seq<char>,
)
    requires
        store.inv(),
        !email_in_use(store.model(), user.email),
    ensures
        store.save_refusal(user) is None,
        !mock.failing() ==> mock.email_refusal(to, subject, body) is None,
        mock.failing() ==> mock.email_refusal(to, subject, body) == Some("模拟：邮件发送失败"@),
{
}

/// The welcome text: "亲爱的 <name>，欢迎加入！".
pub open spec fn welcome_body(name: Seq<char>) -> Seq<char> {
    "亲爱的 "@ + name + "，欢迎加入！"@
}

/// The subject of the welcome e-mail.
pub open spec fn welcome_subject() -> Seq<char> {
    "欢迎注册"@
}

/// Registers users in a store and welcomes them through a notifier.
pub struct RegistrationService<S: UserStore, N: NotificationService> {
    pub store: S,
    pub notifier: N,
}

impl<S: UserStore, N: NotificationService> RegistrationService<S, N> {
    /// A service over the given store and notifier.
    pub fn new(store: S, notifier: N) -> (s: Self)
        ensures
            s.store == store,
            s.notifier == notifier,
    {
        RegistrationService { store, notifier }
    }

    /// Validates the name and address, refuses an address already in use,
    /// stores the user and sends the welcome e-mail.
    pub fn register(&mut self, id: u32, name: &str, email: &str) -> (r: Result<(), String>)
        requires
            old(self).store.inv(),
        ensures
            final(self).store.inv(),
            final(self).notifier.texts() == old(self).notifier.texts(),
            name@.len() == 0 ==> (r matches Err(e) && e@ == "用户名不能为空"@)
                && final(self).store.model() == old(self).store.model()
                && final(self).notifier.emails() == old(self).notifier.emails(),
            name@.len() > 0 && !email@.contains('@') ==> (r matches Err(e) && e@ == "邮箱格式不正确"@)
                && final(self).store.model() == old(self).store.model()
                && final(self).notifier.emails() == old(self).notifier.emails(),
            name@.len() > 0 && email@.contains('@') && email_in_use(old(self).store.model(), email@)
                ==> (r matches Err(e) && e@ == email_taken_message(email@))
                && final(self).store.model() == old(self).store.model()
                && final(self).notifier.emails() == old(self).notifier.emails(),
            name@.len() > 0 && email@.contains('@') && !email_in_use(old(self).store.model(), email@) ==> {
                let user = UserV { id, name: name@, email: email@ };
                match old(self).store.save_refusal(user) {
                    Some(m) => (r matches Err(e) && e@ == m)
                        && final(self).store.model() == old(self).store.model()
                        && final(self).notifier.emails() == old(self).notifier.emails(),
                    None => final(self).store.model() == old(self).store.model().insert(id, user)
                        && match old(self).notifier.email_refusal(email@, welcome_subject(), welcome_body(name@)) {
                            None => r is Ok && final(self).notifier.emails() == old(self).notifier.emails().push(
                                (email@, welcome_subject(), welcome_body(name@)),
                            ),
                            Some(m) => (r matches Err(e) && e@ == m)
                                && final(self).notifier.emails() == old(self).notifier.emails(),
                        },
                }
            },
    {
        if name.unicode_len() == 0 {
            return Err(String::from_str("用户名不能为空"));
        }
        if !contains_char(email, '@') {
            return Err(String::from_str("邮箱格式不正确"));
        }
        if self.store.find_by_email(email).is_some() {
            return Err(concat3("邮箱 ", email, " 已被注册"));
        }
        let user = User { id, name: String::from_str(name), email: String::from_str(email) };
        match self.store.save(user) {
            Ok(()) => {},
            Err(e) => {
                return Err(e);
            },
        }
        let body = concat3("亲爱的 ", name, "，欢迎加入！");
        match self.notifier.send_email(email, "欢迎注册", body.as_str()) {
            Ok(()) => Ok(()),
            Err(e) => Err(e),
        }
    }

    /// The number of stored users.
    pub fn user_count(&self) -> (n: usize)
        requires
            self.store.inv(),
        ensures
            n == self.store.model().len(),
    {
        self.store.count()
    }
}

} // verus!
