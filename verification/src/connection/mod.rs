//! Connections to a database: what the library decides about their calls.

pub mod sqlite;
