//! Functions with every kind of visibility.

use vstd::prelude::*;

verus! {

/// The message of `parent_only`.
pub open spec fn parent_only_text() -> Seq<char> {
    "我只对父模块 visibility_demo 可见"@
}

/// The message of `crate_wide`.
pub open spec fn crate_wide_text() -> Seq<char> {
    "我在整个 crate 内可见 (来自 inner)"@
}

/// The message of `specific_path`.
pub open spec fn specific_path_text() -> Seq<char> {
    "我只对 visibility_demo 模块可见"@
}

/// The message of `fully_public`.
pub open spec fn fully_public_text() -> Seq<char> {
    "我完全公有"@
}

/// Visible to the parent module only.
pub(super) fn parent_only() -> (r: &'static str)
    ensures
        r@ == parent_only_text(),
{
    "我只对父模块 visibility_demo 可见"
}

/// Visible anywhere in the crate.
pub(crate) fn crate_wide() -> (r: &'static str)
    ensures
        r@ == crate_wide_text(),
{
    "我在整个 crate 内可见 (来自 inner)"
}

/// Visible inside `visibility_demo` only.
pub(in crate::visibility_demo) fn specific_path() -> (r: &'static str)
    ensures
        r@ == specific_path_text(),
{
    "我只对 visibility_demo 模块可见"
}

/// Visible everywhere.
pub fn fully_public() -> (r: &'static str)
    ensures
        r@ == fully_public_text(),
{
    "我完全公有"
}

} // verus!
