//! Formatting and validation helpers over the core model.

use vstd::prelude::*;
use crate::core_crate::User;
use crate::text::{concat3, contains_char, decimal, u64_to_string};

verus! {

/// The boxed card that `format_user` draws.
pub open spec fn user_card(id: nat, name: Seq<char>, email: Seq<char>) -> Seq<char> {
    "┌─ 用户信息 ─────────────\n│ ID:    "@ + decimal(id) + "\n│ 姓名:  "@ + name + "\n│ 邮箱:  "@
        + email + "\n└────────────────────────"@
}

/// Draws a card with the user's id, name and e-mail address.
pub fn format_user(user: &User) -> (r: String)
    ensures
        r@ == user_card(user.id as nat, user.name@, user.email@),
{
    let id = u64_to_string(user.id);
    let mut r = concat3("┌─ 用户信息 ─────────────\n│ ID:    ", id.as_str(), "\n│ 姓名:  ");
    r.append(user.name.as_str());
    r.append("\n│ 邮箱:  ");
    r.append(user.email.as_str());
    r.append("\n└────────────────────────");
    r
}

/// Whether an address passes the simple check: it holds an '@' and a '.'.
pub open spec fn email_ok(email: Seq<char>) -> bool {
    email.contains('@') && email.contains('.')
}

/// Checks that `email` holds both an '@' and a '.'.
pub fn validate_email(email: &str) -> (r: bool)
    ensures
        r == email_ok(email@),
{
    contains_char(email, '@') && contains_char(email, '.')
}

/// An address passes the check exactly when some position holds an '@' and
/// some position holds a '.', in whatever order and wherever they stand.
pub proof fn lemma_email_check(email: Seq<char>)
    ensures
        email_ok(email) == ((exists|i: int| 0 <= i < email.len() && email[i] == '@') && (exists|j: int|
            0 <= j < email.len() && email[j] == '.')),
{
}

} // verus!
