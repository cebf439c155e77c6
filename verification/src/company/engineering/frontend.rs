//! The front-end team.

use vstd::prelude::*;

verus! {

/// The front-end task.
pub open spec fn ui_text() -> Seq<char> {
    "前端: 构建 UI"@
}

/// The front-end task.
pub fn build_ui() -> (r: &'static str)
    ensures
        r@ == ui_text(),
{
    "前端: 构建 UI"
}

} // verus!
