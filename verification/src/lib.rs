//! A SQL query builder for SQLite: the builder of SQL text and the pass that
//! walks a query's fragments, changesets of update statements, batch inserts,
//! the queries of migrations, the decisions of a SQLite connection, and the
//! error types of all of these.

pub mod result;
pub mod query_builder;
pub mod expression;
pub mod connection;
pub mod migration;
pub mod types;
pub mod text;
