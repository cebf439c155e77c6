//! The arithmetic behind functions exported with a C calling convention,
//! and the greeting they hand out.

use vstd::prelude::*;

verus! {

/// `a + b`.
pub fn exported_add(a: i32, b: i32) -> (r: i32)
    requires
        i32::MIN <= a + b <= i32::MAX,
    ensures
        r == a + b,
{
    a + b
}

/// `a + b`, as handed to C callers.
pub fn rust_add(a: i32, b: i32) -> (r: i32)
    requires
        i32::MIN <= a + b <= i32::MAX,
    ensures
        r == a + b,
{
    a + b
}

/// `a * b`.
pub fn exported_multiply(a: i32, b: i32) -> (r: i32)
    requires
        i32::MIN <= a * b <= i32::MAX,
    ensures
        r == a * b,
{
    a * b
}

/// A three-way comparison as a difference: negative, zero or positive.
pub fn compare_ints(a: i32, b: i32) -> (r: i32)
    requires
        i32::MIN <= a - b <= i32::MAX,
    ensures
        r == a - b,
        r < 0 <==> a < b,
        r == 0 <==> a == b,
{
    a - b
}

/// The greeting handed to foreign callers.
pub fn get_greeting() -> (r: &'static str)
    ensures
        r@ == "Hello from Rust extern function!"@,
{
    "Hello from Rust extern function!"
}

} // verus!
