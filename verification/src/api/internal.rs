//! The modules behind the public re-exports.

pub mod database;
pub mod cache;
