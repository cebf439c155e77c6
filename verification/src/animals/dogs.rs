//! What a dog says.

use vstd::prelude::*;
use crate::text::concat2;

verus! {

/// The dog's sound.
pub open spec fn bark_text() -> Seq<char> {
    "汪汪汪！"@
}

/// The dog's sound.
pub fn bark() -> (r: &'static str)
    ensures
        r@ == bark_text(),
{
    "汪汪汪！"
}

/// "狗会叫: " followed by the sound.
pub fn description() -> (r: String)
    ensures
        r@ == "狗会叫: "@ + bark_text(),
{
    concat2("狗会叫: ", bark())
}

} // verus!
