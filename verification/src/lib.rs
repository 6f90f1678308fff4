//! A single-resource CRUD service over ticket entries, verified: the entries
//! table with its uniqueness invariants, the parameterized statements the
//! service issues, and the mapping of every outcome to an HTTP response.

pub mod entry;
pub mod errors;
pub mod http;
pub mod sql;
pub mod table;
pub mod text;
