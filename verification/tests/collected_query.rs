use diesel::query_builder::{AstPass, CollectedLoadQuery, CollectedQuery, QueryFragment, QueryId};

#[test]
fn collected_query_writes_back_its_text_and_data() {
    let q = CollectedQuery::new("SELECT * FROM users WHERE id = ?".to_string(), true, 42u32);
    let mut pass: AstPass<u32> = AstPass::new();
    assert!(q.walk_ast(&mut pass).is_ok());
    let (sql, cacheable, binds) = pass.finish();
    assert_eq!(sql, "SELECT * FROM users WHERE id = ?");
    assert!(cacheable);
    assert_eq!(binds.len(), 1);
    assert_eq!(*binds[0], 42);
}

#[test]
fn collected_query_unsafe_to_cache_marks_the_pass() {
    let q = CollectedQuery::new("SELECT 1".to_string(), false, ());
    let mut pass: AstPass<()> = AstPass::new();
    assert!(q.walk_ast(&mut pass).is_ok());
    let (sql, cacheable, binds) = pass.finish();
    assert_eq!(sql, "SELECT 1");
    assert!(!cacheable);
    assert_eq!(binds.len(), 1);
}

#[test]
fn collected_load_query_writes_back_its_text_and_data() {
    let q = CollectedLoadQuery::new("SELECT name FROM users".to_string(), false, 7u8);
    let mut pass: AstPass<u8> = AstPass::new();
    pass.push_sql("/* load */ ");
    assert!(q.walk_ast(&mut pass).is_ok());
    let (sql, cacheable, binds) = pass.finish();
    assert_eq!(sql, "/* load */ SELECT name FROM users");
    assert!(!cacheable);
    assert_eq!(binds.len(), 1);
    assert_eq!(*binds[0], 7);
}

#[test]
fn two_collected_queries_push_their_data_in_order() {
    let a = CollectedQuery::new("A".to_string(), true, 1i64);
    let b = CollectedQuery::new("B".to_string(), true, 2i64);
    let mut pass: AstPass<i64> = AstPass::new();
    assert!(a.walk_ast(&mut pass).is_ok());
    pass.push_sql("; ");
    assert!(b.walk_ast(&mut pass).is_ok());
    let (sql, cacheable, binds) = pass.finish();
    assert_eq!(sql, "A; B");
    assert!(cacheable);
    assert_eq!(binds.iter().map(|x| **x).collect::<Vec<_>>(), vec![1, 2]);
}

#[test]
fn fresh_pass_is_empty_and_cacheable() {
    let pass: AstPass<u8> = AstPass::new();
    let (sql, cacheable, binds) = pass.finish();
    assert_eq!(sql, "");
    assert!(cacheable);
    assert!(binds.is_empty());
}

#[test]
fn collected_queries_have_no_static_query_id() {
    assert!(!<CollectedQuery<u8> as QueryId>::HAS_STATIC_QUERY_ID);
    assert!(!<CollectedLoadQuery<u8> as QueryId>::HAS_STATIC_QUERY_ID);
}
