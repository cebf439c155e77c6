//! Animal sounds, split into one module per animal.

pub mod dogs;
pub mod cats;

use vstd::prelude::*;
use crate::text::concat3;

verus! {

/// Both sounds, separated by a space.
pub fn all_sounds() -> (r: String)
    ensures
        r@ == dogs::bark_text() + " "@ + cats::meow_text(),
{
    concat3(dogs::bark(), " ", cats::meow())
}

} // verus!
