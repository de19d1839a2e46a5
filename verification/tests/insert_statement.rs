use diesel::query_builder::insert_statement::{
    batch_insert_debug_sql, batch_insert_display, BatchInsertAction, BatchInsertExecution,
};
use diesel::result::{Error, ErrorKind};

#[test]
fn batch_insert_adds_up_the_rows_and_commits() {
    let (mut e, a) = BatchInsertExecution::new(3);
    assert!(matches!(a, BatchInsertAction::ExecuteRecord(0)));
    assert!(matches!(e.step(Ok(1)), BatchInsertAction::ExecuteRecord(1)));
    assert!(matches!(e.step(Ok(2)), BatchInsertAction::ExecuteRecord(2)));
    assert!(matches!(e.step(Ok(4)), BatchInsertAction::Commit(7)));
}

#[test]
fn empty_batch_commits_no_rows() {
    let (_, a) = BatchInsertExecution::new(0);
    assert!(matches!(a, BatchInsertAction::Commit(0)));
}

#[test]
fn failed_insert_rolls_the_batch_back() {
    let (mut e, _) = BatchInsertExecution::new(2);
    assert!(matches!(e.step(Ok(1)), BatchInsertAction::ExecuteRecord(1)));
    match e.step(Err(Error(ErrorKind::NotFound, (None, None)))) {
        BatchInsertAction::Rollback(err) => assert!(matches!(err.kind(), ErrorKind::NotFound)),
        _ => panic!("expected a rollback"),
    }
}

#[test]
fn batch_insert_displays_as_a_transaction() {
    let stmts = vec![
        "INSERT INTO users (name) VALUES (?) -- binds: [\"Sean\"]".to_string(),
        "INSERT INTO users (name) VALUES (?) -- binds: [\"Tess\"]".to_string(),
    ];
    assert_eq!(
        batch_insert_display(&stmts),
        "BEGIN;\nINSERT INTO users (name) VALUES (?) -- binds: [\"Sean\"]\nINSERT INTO users (name) VALUES (?) -- binds: [\"Tess\"]\nCOMMIT;\n"
    );
    assert_eq!(batch_insert_display(&Vec::new()), "BEGIN;\nCOMMIT;\n");
}

#[test]
fn batch_insert_debug_lists_the_statements() {
    let stmts = vec!["A".to_string(), "B".to_string()];
    assert_eq!(batch_insert_debug_sql(stmts), vec!["BEGIN", "A", "B", "COMMIT"]);
    assert_eq!(batch_insert_debug_sql(Vec::new()), vec!["BEGIN", "COMMIT"]);
}
