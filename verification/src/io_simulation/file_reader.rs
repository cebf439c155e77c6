//! A reader of a named file.

use vstd::prelude::*;
use crate::text::concat3;

verus! {

/// Reads from the file called `name`.
pub struct Reader {
    pub name: String,
}

impl Reader {
    /// A reader for the file `name`.
    pub fn new(name: &str) -> (r: Self)
        ensures
            r.name@ == name@,
    {
        Reader { name: String::from_str(name) }
    }

    /// "从文件 [<name>] 读取数据".
    pub fn read(&self) -> (r: String)
        ensures
            r@ == "从文件 ["@ + self.name@ + "] 读取数据"@,
    {
        concat3("从文件 [", self.name.as_str(), "] 读取数据")
    }
}

} // verus!
