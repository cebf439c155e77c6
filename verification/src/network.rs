//! A server and a client that reach each other through module paths.

pub mod server;
pub mod client;

use vstd::prelude::*;

verus! {

/// "网络信息: [<start>] [<connect>]".
pub fn info() -> (r: String)
    ensures
        r@ == "网络信息: ["@ + server::start_text() + "] ["@ + client::connect_text() + "]"@,
{
    let s = server::start();
    let c = client::connect();
    let mut r = String::from_str("网络信息: [");
    r.append(s.as_str());
    r.append("] [");
    r.append(c.as_str());
    r.append("]");
    r
}

} // verus!
