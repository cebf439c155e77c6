//! A named database connection that describes the queries it runs.

use vstd::prelude::*;
use crate::text::concat3;

verus! {

/// A connection to the database `db_name`.
pub struct Connection {
    pub db_name: String,
}

impl Connection {
    /// A connection to the database `name`.
    pub fn new(name: &str) -> (c: Self)
        ensures
            c.db_name@ == name@,
    {
        Connection { db_name: String::from_str(name) }
    }

    /// "[<db_name>] 执行查询: <sql>".
    pub fn query(&self, sql: &str) -> (r: String)
        ensures
            r@ == "["@ + self.db_name@ + "] 执行查询: "@ + sql@,
    {
        let mut r = concat3("[", self.db_name.as_str(), "] 执行查询: ");
        r.append(sql);
        r
    }
}

} // verus!
