//! Functions and types that carry compiler attributes: inlining hints,
//! must-use results, a superseded function, non-exhaustive errors and
//! settings that depend on the build.

pub mod api_module;
pub mod platform;

use vstd::prelude::*;

verus! {

/// An RGB pixel; the default is black.
#[derive(Debug, Clone, Copy, PartialEq, Eq, Hash, Default)]
pub struct Pixel {
    pub r: u8,
    pub g: u8,
    pub b: u8,
}

/// `a + b`.
#[inline]
pub fn add(a: i32, b: i32) -> (r: i32)
    requires
        i32::MIN <= a + b <= i32::MAX,
    ensures
        r == a + b,
{
    a + b
}

/// `a * b`.
#[inline(always)]
pub fn multiply(a: i32, b: i32) -> (r: i32)
    requires
        i32::MIN <= a * b <= i32::MAX,
    ensures
        r == a * b,
{
    a * b
}

/// `x² + 2x + 1`.
pub open spec fn complex_value(x: int) -> int {
    x * x + 2 * x + 1
}

/// `x² + 2x + 1`, kept out of line; each intermediate value must fit in an `i32`.
#[inline(never)]
pub fn complex_operation(x: i32) -> (r: i32)
    requires
        x * x <= i32::MAX,
        complex_value(x as int) <= i32::MAX,
    ensures
        r == complex_value(x as int),
{
    assert(-46341 < x < 46341) by (nonlinear_arith)
        requires
            x * x <= i32::MAX,
    ;
    assert(0 <= x * x) by (nonlinear_arith);
    let sq = x * x;
    sq + 2 * x + 1
}

/// `x * 2`; the result is meant to be used.
#[must_use]
pub fn important_calculation(x: i32) -> (r: i32)
    requires
        i32::MIN <= x * 2 <= i32::MAX,
    ensures
        r == x * 2,
{
    x * 2
}

/// Superseded by `new_function`, which returns the same value.
pub fn old_function() -> (r: i32)
    ensures
        r == 42,
{
    42
}

/// The replacement of `old_function`.
pub fn new_function() -> (r: i32)
    ensures
        r == 42,
{
    42
}

/// The absolute value of `value`.
pub fn expensive_check(value: i32) -> (r: i32)
    requires
        value != i32::MIN,
    ensures
        r == (if value < 0 { -value } else { value as int }),
{
    if value < 0 {
        -value
    } else {
        value
    }
}

/// Errors an API may report; more kinds may be added later.
#[non_exhaustive]
#[derive(Debug)]
pub enum ApiError {
    NotFound,
    Unauthorized,
    InternalError,
}

/// Application settings; `debug` records whether this is a debug build.
#[derive(Debug, Clone)]
pub struct AppConfig {
    pub name: String,
    pub version: String,
    pub debug: bool,
}

impl AppConfig {
    /// Settings for `name` at `version`, in a debug build when `debug`.
    #[must_use]
    pub fn new(name: &str, version: &str, debug: bool) -> (c: Self)
        ensures
            c.name@ == name@,
            c.version@ == version@,
            c.debug == debug,
    {
        AppConfig { name: String::from_str(name), version: String::from_str(version), debug }
    }
}

} // verus!
