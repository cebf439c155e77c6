//! The kitchen, private to the restaurant.

use vstd::prelude::*;

verus! {

/// The kitchen's status line.
pub open spec fn meal_text() -> Seq<char> {
    "厨房正在准备餐食..."@
}

/// The kitchen's status line.
pub fn prepare_meal() -> (r: String)
    ensures
        r@ == meal_text(),
{
    String::from_str("厨房正在准备餐食...")
}

} // verus!
