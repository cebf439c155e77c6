//! A list, a map and a set of strings, each a thin layer over a vector.

pub mod simple_list;
pub mod simple_map;
pub mod simple_set;
