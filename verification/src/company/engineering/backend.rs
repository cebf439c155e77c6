//! The back-end team, which calls the front-end.

use vstd::prelude::*;
use crate::text::concat2;

verus! {

/// The back-end task.
pub open spec fn api_text() -> Seq<char> {
    "后端: 构建 API"@
}

/// The back-end task.
pub fn build_api() -> (r: &'static str)
    ensures
        r@ == api_text(),
{
    "后端: 构建 API"
}

/// "后端调用 -> <ui>", through the sibling module.
pub fn call_frontend() -> (r: String)
    ensures
        r@ == "后端调用 -> "@ + super::frontend::ui_text(),
{
    let ui = super::frontend::build_ui();
    concat2("后端调用 -> ", ui)
}

/// "后端调用(绝对路径) -> <ui>", through the absolute path.
pub fn call_with_absolute() -> (r: String)
    ensures
        r@ == "后端调用(绝对路径) -> "@ + crate::company::engineering::frontend::ui_text(),
{
    let ui = crate::company::engineering::frontend::build_ui();
    concat2("后端调用(绝对路径) -> ", ui)
}

} // verus!
