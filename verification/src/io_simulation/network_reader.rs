//! A reader of a network address.

use vstd::prelude::*;
use crate::text::concat3;

verus! {

/// Reads from the address `url`.
pub struct Reader {
    pub url: String,
}

impl Reader {
    /// A reader for the address `url`.
    pub fn new(url: &str) -> (r: Self)
        ensures
            r.url@ == url@,
    {
        Reader { url: String::from_str(url) }
    }

    /// "从网络 [<url>] 读取数据".
    pub fn read(&self) -> (r: String)
        ensures
            r@ == "从网络 ["@ + self.url@ + "] 读取数据"@,
    {
        concat3("从网络 [", self.url.as_str(), "] 读取数据")
    }
}

} // verus!
