use diesel::query_builder::{Context, SqliteQueryBuilder};

#[test]
fn new_builder_is_empty() {
    let b = SqliteQueryBuilder::new();
    assert_eq!(b.sql, "");
}

#[test]
fn push_sql_appends_text() {
    let mut b = SqliteQueryBuilder::new();
    b.push_sql("SELECT ");
    b.push_sql("1");
    assert_eq!(b.sql, "SELECT 1");
}

#[test]
fn push_identifier_appends_the_identifier_as_it_is() {
    let mut b = SqliteQueryBuilder::new();
    assert!(b.push_identifier("users").is_ok());
    b.push_sql(".");
    assert!(b.push_identifier("name").is_ok());
    assert_eq!(b.sql, "users.name");
}

#[test]
fn bound_value_is_a_placeholder_outside_inserts() {
    let mut b = SqliteQueryBuilder::new();
    b.push_bound_value(None);
    b.push_bound_value(Some(vec![1, 2]));
    assert_eq!(b.sql, "??");
}

#[test]
fn missing_value_in_an_insert_is_null() {
    let mut b = SqliteQueryBuilder::new();
    b.push_context(Context::Insert);
    b.push_bound_value(None);
    b.push_sql(", ");
    b.push_bound_value(Some(vec![7]));
    assert_eq!(b.sql, "NULL, ?");
}

#[test]
fn only_the_outermost_context_decides_null() {
    let mut b = SqliteQueryBuilder::new();
    b.push_context(Context::Insert);
    b.push_context(Context::Select);
    b.push_bound_value(None);
    assert_eq!(b.sql, "NULL");

    let mut c = SqliteQueryBuilder::new();
    c.push_context(Context::Select);
    c.push_context(Context::Insert);
    c.push_bound_value(None);
    assert_eq!(c.sql, "?");
}

#[test]
fn popping_a_context_leaves_the_insert() {
    let mut b = SqliteQueryBuilder::new();
    b.push_context(Context::Insert);
    b.push_bound_value(None);
    b.pop_context();
    b.push_bound_value(None);
    assert_eq!(b.sql, "NULL?");
}

#[test]
fn pop_context_on_an_empty_stack_does_nothing() {
    let mut b = SqliteQueryBuilder::new();
    b.pop_context();
    b.push_bound_value(None);
    assert_eq!(b.sql, "?");
}

#[test]
fn push_then_pop_context_restores_the_builder() {
    let mut b = SqliteQueryBuilder::new();
    b.push_context(Context::Select);
    b.push_context(Context::Insert);
    b.pop_context();
    b.push_bound_value(None);
    assert_eq!(b.sql, "?");
}

#[test]
fn into_sql_gives_the_text() {
    let mut b = SqliteQueryBuilder::new();
    b.push_sql("SELECT 1");
    assert_eq!(b.into_sql(), "SELECT 1".to_string());
}
