//! Human resources, hiring for engineering.

use vstd::prelude::*;
use crate::text::concat2;

verus! {

/// The hiring message.
pub open spec fn hire_text() -> Seq<char> {
    "HR: 招聘新员工"@
}

/// The hiring message.
pub fn hire() -> (r: &'static str)
    ensures
        r@ == hire_text(),
{
    "HR: 招聘新员工"
}

/// "<hire>, 为 [<api>] 招聘".
pub fn hire_engineer() -> (r: String)
    ensures
        r@ == hire_text() + ", 为 ["@ + super::engineering::backend::api_text() + "] 招聘"@,
{
    let api = super::engineering::backend::build_api();
    let mut r = concat2(hire(), ", 为 [");
    r.append(api);
    r.append("] 招聘");
    r
}

} // verus!
