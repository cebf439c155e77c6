//! The server side.

use vstd::prelude::*;
use crate::text::concat3;

verus! {

/// The start message.
pub open spec fn start_text() -> Seq<char> {
    "服务器启动"@
}

/// The start message.
pub fn start() -> (r: String)
    ensures
        r@ == start_text(),
{
    String::from_str("服务器启动")
}

/// "状态: <start> 完成".
pub fn status() -> (r: String)
    ensures
        r@ == "状态: "@ + start_text() + " 完成"@,
{
    let msg = self::start();
    concat3("状态: ", msg.as_str(), " 完成")
}

} // verus!
