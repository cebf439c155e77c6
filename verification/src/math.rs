//! Integer helpers, with a private formula behind a public entry point.

use vstd::prelude::*;

verus! {

/// `a + b`.
pub fn add(a: i32, b: i32) -> (r: i32)
    requires
        i32::MIN <= a + b <= i32::MAX,
    ensures
        r == a + b,
{
    a + b
}

/// `a - b`.
pub fn subtract(a: i32, b: i32) -> (r: i32)
    requires
        i32::MIN <= a - b <= i32::MAX,
    ensures
        r == a - b,
{
    a - b
}

/// The formula `x * 42 + 7`.
pub open spec fn magic(x: int) -> int {
    x * 42 + 7
}

fn secret_formula(x: i32) -> (r: i32)
    requires
        i32::MIN <= magic(x as int) <= i32::MAX,
    ensures
        r == magic(x as int),
{
    x * 42 + 7
}

/// `x * 42 + 7`, computed by the private formula.
pub fn magic_number(x: i32) -> (r: i32)
    requires
        i32::MIN <= magic(x as int) <= i32::MAX,
    ensures
        r == magic(x as int),
{
    secret_formula(x)
}

} // verus!
