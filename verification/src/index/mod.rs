//! The index's schema versioning and the statements run against it.

pub mod schema;
pub mod sql;
