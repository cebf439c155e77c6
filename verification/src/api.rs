//! A small public surface over internal modules, re-exported under short paths.

mod internal;

pub use internal::cache::Cache;
pub use internal::database::Connection;
pub use internal::database::Connection as DbConn;
