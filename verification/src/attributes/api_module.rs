//! A response whose field names follow the remote API rather than Rust style.

#![allow(non_snake_case)]

use vstd::prelude::*;

verus! {

/// A user as an API reports it.
#[derive(Debug)]
pub struct UserResponse {
    pub userId: u64,
    pub userName: String,
    pub isActive: bool,
}

} // verus!
