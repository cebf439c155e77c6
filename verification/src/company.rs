//! A company's departments as nested modules.

pub mod engineering;
pub mod hr;
