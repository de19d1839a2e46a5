use diesel::migration::{MigrationErrorKind, MigrationPath, RunMigrationsErrorKind};
use diesel::query_builder::BuildQueryErrorKind;
use diesel::result::{
    ConnectionError, ConnectionErrorKind, ErrorInformation, DatabaseErrorKind, Error, ErrorKind, NulError,
};
use diesel::text::push_decimal;

fn info(message: &str) -> ErrorInformation {
    ErrorInformation {
        message: message.to_string(),
        details: None,
        hint: None,
        table_name: None,
        column_name: None,
        constraint_name: None,
    }
}

#[test]
fn decimal_text() {
    for n in [0usize, 7, 10, 42, 1000, 123456789, usize::MAX] {
        let mut s = String::from("n=");
        push_decimal(&mut s, n);
        assert_eq!(s, format!("n={}", n));
    }
}

#[test]
fn nul_error_texts_match_std() {
    let e = NulError(12, b"hello world\0!".to_vec());
    assert_eq!(e.description(), "nul byte found in data");
    assert_eq!(e.to_display_string(), "nul byte found in provided data at position: 12");
}

#[test]
fn database_error_texts() {
    let u = DatabaseErrorKind::UniqueViolation(info("UNIQUE constraint failed: users.name"));
    assert_eq!(u.description(), "Unique violation");
    assert_eq!(u.to_display_string(), "Database error (Unique violation): UNIQUE constraint failed: users.name");
    let k = DatabaseErrorKind::__Unknown(info("oops"));
    assert_eq!(k.description(), "Unknown");
    assert_eq!(k.to_display_string(), "Database error (Unknown error): oops");
    let m = DatabaseErrorKind::Msg("plain".to_string());
    assert_eq!(m.description(), "plain");
    assert_eq!(m.to_display_string(), "plain");
}

#[test]
fn error_descriptions() {
    assert_eq!(Error(ErrorKind::NotFound, (None, None)).description(), "Record not found");
    assert_eq!(ErrorKind::Msg("m".to_string()).description(), "m");
    assert_eq!(ErrorKind::DeserializationError("bad int".to_string()).description(), "bad int");
    assert_eq!(ErrorKind::SerializationError("bad text".to_string()).description(), "bad text");
    assert_eq!(
        ErrorKind::DatabaseError(DatabaseErrorKind::UniqueViolation(info("x"))).description(),
        "Unique violation"
    );
    assert_eq!(
        ErrorKind::QueryBuildError(BuildQueryErrorKind::QueryError(Box::new(Error(ErrorKind::NotFound, (None, None))))).description(),
        "Query Error"
    );
    assert_eq!(
        ErrorKind::InvalidCString(NulError(0, vec![0])).description(),
        "nul byte found in data"
    );
    assert_eq!(ErrorKind::__Nonexhaustive.description(), "__Nonexhaustive");
}

#[test]
fn connection_error_texts() {
    let e = ConnectionError(ConnectionErrorKind::BadConnection("unable to open database file".to_string()));
    assert_eq!(e.description(), "Bad connection error");
    assert_eq!(e.to_display_string(), "Bad connection error: unable to open database file");
    let n = ConnectionError(ConnectionErrorKind::InvalidCString(NulError(3, b"abc\0".to_vec())));
    assert_eq!(n.description(), "nul byte found in data");
    assert_eq!(n.to_display_string(), "nul byte found in provided data at position: 3");
    let m = ConnectionError(ConnectionErrorKind::Msg("m".to_string()));
    assert_eq!(m.to_display_string(), "m");
}

#[test]
fn migration_error_descriptions() {
    assert_eq!(
        MigrationErrorKind::MigrationDirectoryNotFound.description(),
        "Unable to find migrations directory in this directory or any parent directories."
    );
    assert_eq!(
        MigrationErrorKind::UnknownMigrationFormat(MigrationPath::from_components(vec!["x".to_string()])).description(),
        "Invalid migration directory, the directory's name should be <timestamp>_<name_of_migration>, and it should only contain up.sql and down.sql."
    );
    assert_eq!(
        MigrationErrorKind::UnknownMigrationVersion("1".to_string()).description(),
        "Unable to find migration version to revert in the migrations directory."
    );
    assert_eq!(
        RunMigrationsErrorKind::MigrationError(MigrationErrorKind::MigrationDirectoryNotFound).description(),
        "Unable to find migrations directory in this directory or any parent directories."
    );
    assert_eq!(RunMigrationsErrorKind::QueryError(ErrorKind::NotFound).description(), "Record not found");
    assert_eq!(RunMigrationsErrorKind::IoError("disk full".to_string()).description(), "disk full");
}

#[test]
fn error_display_texts() {
    assert_eq!(Error(ErrorKind::NotFound, (None, None)).to_display_string(), "Record not found");
    assert_eq!(
        ErrorKind::DeserializationError("invalid digit".to_string()).to_display_string(),
        "Deserialization error: invalid digit"
    );
    assert_eq!(
        ErrorKind::SerializationError("too long".to_string()).to_display_string(),
        "Serialization error: too long"
    );
    assert_eq!(ErrorKind::Msg("m".to_string()).to_display_string(), "m");
    assert_eq!(
        ErrorKind::DatabaseError(DatabaseErrorKind::UniqueViolation(info("dup"))).to_display_string(),
        "Database error (Unique violation): dup"
    );
    assert_eq!(
        ErrorKind::InvalidCString(NulError(5, b"hello\0".to_vec())).to_display_string(),
        "nul byte found in provided data at position: 5"
    );
}

#[test]
fn build_query_error_display_shows_the_debug_text_of_the_error() {
    let inner = Error(ErrorKind::NotFound, (None, None));
    let expected = format!("Query Error: {:?}", inner);
    assert_eq!(expected, "Query Error: Error(NotFound, (None, None))");
    let kind = BuildQueryErrorKind::QueryError(Box::new(inner));
    assert_eq!(kind.to_display_string(), expected);
    assert_eq!(ErrorKind::QueryBuildError(kind).to_display_string(), "Query Error: Error(NotFound, (None, None))");
    assert_eq!(BuildQueryErrorKind::Msg("m".to_string()).to_display_string(), "m");
}

#[test]
fn query_error_display_shows_a_nul_error_as_a_pair() {
    let inner = Error(ErrorKind::InvalidCString(NulError(1, vec![97, 0])), (None, None));
    let kind = BuildQueryErrorKind::QueryError(Box::new(inner));
    assert_eq!(
        kind.to_display_string(),
        "Query Error: Error(InvalidCString(NulError(1, [97, 0])), (None, None))"
    );
}
