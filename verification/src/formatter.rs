//! Messages for failed operations, and the library's version string.

use vstd::prelude::*;
use crate::text::concat3;

verus! {

/// The library's version.
pub const VERSION: &'static str = "1.0.0";

/// "[<operation>] 错误: <error>".
pub fn format_error(operation: &str, error: &str) -> (r: String)
    ensures
        r@ == "["@ + operation@ + "] 错误: "@ + error@,
{
    let mut r = concat3("[", operation, "] 错误: ");
    r.append(error);
    r
}

} // verus!
