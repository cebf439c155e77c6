//! The engineering department.

pub mod frontend;
pub mod backend;
