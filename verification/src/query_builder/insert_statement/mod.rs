//! Insert statements.

pub mod insert_with_default_for_sqlite;
pub use self::insert_with_default_for_sqlite::{
    BatchInsertAction, BatchInsertExecution, batch_insert_debug_sql, batch_insert_display,
};
