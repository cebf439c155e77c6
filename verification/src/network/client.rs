//! The client side, reaching the server by relative and absolute paths.

use vstd::prelude::*;
use crate::text::concat2;

verus! {

/// "客户端连接 -> <start>".
pub open spec fn connect_text() -> Seq<char> {
    "客户端连接 -> "@ + super::server::start_text()
}

/// Connects through the parent module's path to the server.
pub fn connect() -> (r: String)
    ensures
        r@ == connect_text(),
{
    let server_status = super::server::start();
    concat2("客户端连接 -> ", server_status.as_str())
}

/// Connects through the absolute path to the server.
pub fn connect_absolute() -> (r: String)
    ensures
        r@ == "客户端连接(绝对路径) -> "@ + crate::network::server::start_text(),
{
    let server_status = crate::network::server::start();
    concat2("客户端连接(绝对路径) -> ", server_status.as_str())
}

} // verus!
