//! Two readers with the same name, told apart by their modules.

pub mod file_reader;
pub mod network_reader;
