use diesel::connection::sqlite::{
    c_string_from_str, execute_result, exec_result, open_status_result, prepare_status_result,
    database_error_kind, step_status_result, StepOutcome, SQLITE_CONSTRAINT_PRIMARYKEY,
    SQLITE_CONSTRAINT_UNIQUE, SQLITE_DONE, SQLITE_OK, SQLITE_ROW,
};
use diesel::result::{ConnectionErrorKind, DatabaseErrorInformation, DatabaseErrorKind, Error, ErrorKind};

#[test]
fn c_string_ends_in_nul() {
    assert_eq!(c_string_from_str("abc").ok(), Some(b"abc\0".to_vec()));
    assert_eq!(c_string_from_str("").ok(), Some(vec![0u8]));
    assert_eq!(c_string_from_str("é").ok(), Some(vec![0xc3, 0xa9, 0]));
}

#[test]
fn c_string_with_a_nul_byte_reports_the_first_one() {
    let e = c_string_from_str("ab\0c\0").err().unwrap();
    assert_eq!(e.0, 2);
    assert_eq!(e.1, b"ab\0c\0".to_vec());
    let e = c_string_from_str("\0").err().unwrap();
    assert_eq!(e.0, 0);
}

#[test]
fn open_succeeds_only_on_sqlite_ok() {
    assert!(open_status_result(SQLITE_OK, "not an error").is_ok());
    match open_status_result(14, "unable to open database file") {
        Err(e) => assert!(matches!(e.kind(), ConnectionErrorKind::BadConnection(m) if m == "unable to open database file")),
        Ok(()) => panic!("expected a bad connection"),
    }
}

#[test]
fn exec_reports_sqlites_message() {
    assert!(exec_result(1, None).is_ok());
    match exec_result(1, Some("near \"SELEC\": syntax error".to_string())) {
        Err(e) => assert!(matches!(e.kind(), ErrorKind::DatabaseError(DatabaseErrorKind::Msg(m)) if m == "near \"SELEC\": syntax error")),
        Ok(()) => panic!("expected an error"),
    }
}

#[test]
fn execute_counts_rows_after_a_successful_batch() {
    assert_eq!(execute_result(Ok(()), 3usize).ok(), Some(3));
    let r = execute_result(Err(Error(ErrorKind::NotFound, (None, None))), 3usize);
    assert!(matches!(r, Err(Error(ErrorKind::NotFound, (None, None)))));
}

#[test]
fn prepare_succeeds_only_on_sqlite_ok() {
    assert!(prepare_status_result(0, 0, "not an error").is_ok());
    match prepare_status_result(1, 1, "SQL logic error") {
        Err(e) => assert!(matches!(e.kind(), ErrorKind::DatabaseError(DatabaseErrorKind::Msg(m)) if m == "SQL logic error")),
        Ok(()) => panic!("expected an error"),
    }
}

#[test]
fn step_tells_rows_from_the_end_and_errors() {
    assert_eq!(step_status_result(SQLITE_ROW, SQLITE_ROW, "another row available").ok(), Some(StepOutcome::Row));
    assert_eq!(step_status_result(SQLITE_DONE, SQLITE_DONE, "no more rows available").ok(), Some(StepOutcome::Done));
    match step_status_result(19, 275, "CHECK constraint failed: positive") {
        Err(e) => assert!(matches!(e.kind(), ErrorKind::DatabaseError(DatabaseErrorKind::Msg(m)) if m == "CHECK constraint failed: positive")),
        Ok(_) => panic!("expected an error"),
    }
}

#[test]
fn unique_and_primary_key_codes_are_unique_violations() {
    let u = database_error_kind(SQLITE_CONSTRAINT_UNIQUE, "UNIQUE constraint failed: users.name".to_string());
    assert!(matches!(u, DatabaseErrorKind::UniqueViolation(_)));
    assert_eq!(u.message(), "UNIQUE constraint failed: users.name");
    assert_eq!(u.table_name(), None);
    let p = database_error_kind(SQLITE_CONSTRAINT_PRIMARYKEY, "UNIQUE constraint failed: users.id".to_string());
    assert!(matches!(p, DatabaseErrorKind::UniqueViolation(_)));
    let other = database_error_kind(1299, "NOT NULL constraint failed: users.name".to_string());
    assert!(matches!(other, DatabaseErrorKind::Msg(ref m) if m == "NOT NULL constraint failed: users.name"));
}

#[test]
fn a_duplicate_key_is_reported_as_a_unique_violation() {
    let failure = exec_result(SQLITE_CONSTRAINT_PRIMARYKEY, Some("UNIQUE constraint failed: users.id".to_string()))
        .unwrap_err();
    assert!(matches!(failure.kind(), ErrorKind::DatabaseError(DatabaseErrorKind::UniqueViolation(_))));
    let failure = step_status_result(19, SQLITE_CONSTRAINT_UNIQUE, "UNIQUE constraint failed: users.name").unwrap_err();
    assert!(matches!(failure.kind(), ErrorKind::DatabaseError(DatabaseErrorKind::UniqueViolation(_))));
    let failure = prepare_status_result(19, SQLITE_CONSTRAINT_UNIQUE, "constraint failed").unwrap_err();
    assert!(matches!(failure.kind(), ErrorKind::DatabaseError(DatabaseErrorKind::UniqueViolation(_))));
}
