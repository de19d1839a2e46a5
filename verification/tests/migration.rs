use diesel::migration::{
    first_row, insert_new_migration, insert_new_migration_sql, latest_run_migration_version,
    latest_run_migration_version_sql, previously_run_migration_versions,
    previously_run_migration_versions_sql, version_column, version_rows, MigrationError, MigrationErrorKind,
    MigrationPath, RunMigrationsError, RunMigrationsErrorKind, CREATE_MIGRATIONS_TABLE,
};
use diesel::expression::Column;
use diesel::result::{Error, ErrorKind, TransactionError};

fn path(parts: &[&str]) -> MigrationPath {
    MigrationPath::from_components(parts.iter().map(|s| s.to_string()).collect())
}

#[test]
fn migrations_table_sql() {
    assert_eq!(
        CREATE_MIGRATIONS_TABLE,
        "CREATE TABLE IF NOT EXISTS __diesel_schema_migrations (version VARCHAR(50) PRIMARY KEY NOT NULL,run_on TIMESTAMP NOT NULL DEFAULT CURRENT_TIMESTAMP)"
    );
    let c = version_column();
    assert_eq!(c.table(), "__diesel_schema_migrations");
    assert_eq!(c.name(), "version");
}

#[test]
fn migration_queries() {
    assert_eq!(
        previously_run_migration_versions_sql(),
        "SELECT __diesel_schema_migrations.version FROM __diesel_schema_migrations"
    );
    assert_eq!(
        latest_run_migration_version_sql(),
        "SELECT MAX(__diesel_schema_migrations.version) FROM __diesel_schema_migrations LIMIT 1"
    );
    assert_eq!(insert_new_migration_sql(), "INSERT INTO __diesel_schema_migrations (version) VALUES (?)");
}

#[test]
fn previously_run_versions_are_a_set() {
    let rows = vec!["20160107".to_string(), "20160101".to_string(), "20160107".to_string()];
    assert_eq!(previously_run_migration_versions(rows), vec!["20160107", "20160101"]);
    assert!(previously_run_migration_versions(Vec::new()).is_empty());
}

#[test]
fn latest_version_is_the_first_row() {
    assert_eq!(latest_run_migration_version(vec![Some("2".to_string())]).ok(), Some(Some("2".to_string())));
    assert_eq!(latest_run_migration_version(vec![None]).ok(), Some(None));
    assert!(matches!(latest_run_migration_version(Vec::new()), Err(Error(ErrorKind::NotFound, (None, None)))));
    assert_eq!(first_row(vec![3, 4]).ok(), Some(3));
}

#[test]
fn inserting_a_migration_ignores_the_row_count() {
    assert!(insert_new_migration(Ok(1)).is_ok());
    assert!(matches!(insert_new_migration(Err(Error(ErrorKind::NotFound, (None, None)))), Err(Error(ErrorKind::NotFound, (None, None)))));
}

#[test]
fn migration_error_kinds_compare() {
    assert!(MigrationErrorKind::MigrationDirectoryNotFound == MigrationErrorKind::MigrationDirectoryNotFound);
    assert!(
        MigrationErrorKind::UnknownMigrationFormat(path(&["migrations", "bad"]))
            == MigrationErrorKind::UnknownMigrationFormat(path(&["migrations", "bad"]))
    );
    assert!(
        MigrationErrorKind::UnknownMigrationFormat(path(&["migrations", "bad"]))
            != MigrationErrorKind::UnknownMigrationFormat(path(&["migrations", "other"]))
    );
    assert!(
        MigrationErrorKind::UnknownMigrationVersion("1".to_string())
            != MigrationErrorKind::UnknownMigrationVersion("1".to_string())
    );
    assert!(MigrationErrorKind::Msg("m".to_string()) != MigrationErrorKind::Msg("m".to_string()));
    assert!(MigrationErrorKind::MigrationDirectoryNotFound != MigrationErrorKind::IoError("x".to_string()));
}

#[test]
fn transaction_errors_become_run_migration_errors() {
    let e = RunMigrationsError::from(TransactionError::<RunMigrationsError>::CouldntCreateTransaction(Error(
        ErrorKind::NotFound,
        (None, None),
    )));
    assert!(matches!(e.kind(), RunMigrationsErrorKind::QueryError(ErrorKind::NotFound)));

    let user = RunMigrationsError(RunMigrationsErrorKind::Msg("user".to_string()));
    let e = RunMigrationsError::from(TransactionError::UserReturnedError(user));
    assert!(matches!(e.kind(), RunMigrationsErrorKind::Msg(m) if m == "user"));
}

#[test]
fn migration_errors_become_run_migration_errors() {
    let e = RunMigrationsError::from(MigrationError(MigrationErrorKind::MigrationDirectoryNotFound));
    assert!(matches!(e.kind(), RunMigrationsErrorKind::MigrationError(MigrationErrorKind::MigrationDirectoryNotFound)));
    let e = RunMigrationsError::from(Error(ErrorKind::NotFound, (None, None)));
    assert!(matches!(e.kind(), RunMigrationsErrorKind::QueryError(ErrorKind::NotFound)));
    let m = MigrationError(MigrationErrorKind::MigrationDirectoryNotFound);
    assert!(matches!(m.kind(), MigrationErrorKind::MigrationDirectoryNotFound));
}

#[test]
fn version_rows_read_text_and_refuse_null() {
    let rows = vec![Some("1".to_string()), Some("2".to_string())];
    assert_eq!(version_rows(rows).ok(), Some(vec!["1".to_string(), "2".to_string()]));
    match version_rows(vec![Some("1".to_string()), None]) {
        Err(e) => assert!(matches!(e.kind(), ErrorKind::DeserializationError(m) if m == "Unexpected null for non-null column")),
        Ok(_) => panic!("expected a deserialization error"),
    }
    assert_eq!(version_rows(Vec::new()).ok(), Some(Vec::<String>::new()));
}
