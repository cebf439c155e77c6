//! Functions visible to the crate, to a parent module, to a named path, or to all.

pub mod inner;

use vstd::prelude::*;
use crate::text::concat2;

verus! {

/// The crate-wide message.
pub open spec fn crate_level_text() -> Seq<char> {
    "我在整个 crate 内可见"@
}

/// A function visible anywhere in the crate.
pub(crate) fn crate_level_function() -> (r: &'static str)
    ensures
        r@ == crate_level_text(),
{
    "我在整个 crate 内可见"
}

/// The five lines that `demonstrate` returns, in order.
pub open spec fn demonstrate_lines() -> Seq<Seq<char>> {
    seq![
        "crate_level: "@ + crate_level_text(),
        "parent_only: "@ + inner::parent_only_text(),
        "crate_wide: "@ + inner::crate_wide_text(),
        "specific_path: "@ + inner::specific_path_text(),
        "fully_public: "@ + inner::fully_public_text(),
    ]
}

/// One line per function, each prefixed with the function's name.
pub fn demonstrate() -> (r: Vec<String>)
    ensures
        r@.map_values(|s: String| s@) == demonstrate_lines(),
{
    let mut r: Vec<String> = Vec::new();
    r.push(concat2("crate_level: ", crate_level_function()));
    r.push(concat2("parent_only: ", inner::parent_only()));
    r.push(concat2("crate_wide: ", inner::crate_wide()));
    r.push(concat2("specific_path: ", inner::specific_path()));
    r.push(concat2("fully_public: ", inner::fully_public()));
    assert(r@.map_values(|s: String| s@) =~= demonstrate_lines());
    r
}

} // verus!
