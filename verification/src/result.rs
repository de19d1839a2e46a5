//! Error types and `Result` aliases.

use vstd::prelude::*;
use crate::query_builder::{BuildQueryError, BuildQueryErrorKind};
use vstd::std_specs::cmp::PartialEqSpec;
use crate::text::{decimal, push_decimal};

verus! {

/// Compares two byte vectors element by element.
pub fn bytes_eq(a: &Vec<u8>, b: &Vec<u8>) -> (r: bool)
    ensures
        r == (a@ == b@),
{
    if a.len() != b.len() {
        return false;
    }
    let mut i: usize = 0;
    while i < a.len()
        invariant
            a@.len() == b@.len(),
            i <= a@.len(),
            forall|j: int| 0 <= j < i ==> a@[j] == b@[j],
        decreases a@.len() - i,
    {
        if a[i] != b[i] {
            return false;
        }
        i = i + 1;
    }
    assert(a@ =~= b@);
    true
}

/// A string that could not become a C string because it holds a NUL byte:
/// the position of the first NUL byte, and the bytes that were given.
#[derive(Debug)]
pub struct NulError(pub usize, pub Vec<u8>);

impl NulError {
    /// The position of the first NUL byte.
    pub fn nul_position(&self) -> (r: usize)
        ensures
            r == self.0,
    {
        self.0
    }

    /// The bytes that were given.
    pub fn into_vec(self) -> (r: Vec<u8>)
        ensures
            r@ == self.1@,
    {
        self.1
    }
}

impl PartialEq for NulError {
    fn eq(&self, other: &NulError) -> (r: bool) {
        self.0 == other.0 && bytes_eq(&self.1, &other.1)
    }
}

impl vstd::std_specs::cmp::PartialEqSpecImpl for NulError {
    open spec fn obeys_eq_spec() -> bool {
        true
    }

    open spec fn eq_spec(&self, other: &NulError) -> bool {
        self.0 == other.0 && self.1@ == other.1@
    }
}

} // verus!

verus! {

/// The view of an optional borrowed string.
pub open spec fn opt_str_view(o: Option<&str>) -> Option<Seq<char>> {
    match o {
        Some(s) => Some(s@),
        None => None,
    }
}

/// The view of an optional owned string.
pub open spec fn opt_string_view(o: Option<String>) -> Option<Seq<char>> {
    match o {
        Some(s) => Some(s@),
        None => None,
    }
}

/// Borrows the contents of an optional owned string.
pub fn opt_as_str(o: &Option<String>) -> (r: Option<&str>)
    ensures
        opt_str_view(r) == opt_string_view(*o),
{
    match o {
        Some(s) => Some(s.as_str()),
        None => None,
    }
}

/// What a database can report about an error: its message, and where known
/// the details, a hint, and the table, column and constraint it concerns.
/// A backend implements this for its own type of error information.
pub trait DatabaseErrorInformation {
    /// The error message the database gave.
    spec fn message_view(&self) -> Seq<char>;

    /// The details of the error, if any.
    spec fn details_view(&self) -> Option<Seq<char>>;

    /// The hint on the error, if any.
    spec fn hint_view(&self) -> Option<Seq<char>>;

    /// The table the error concerns, if any.
    spec fn table_name_view(&self) -> Option<Seq<char>>;

    /// The column the error concerns, if any.
    spec fn column_name_view(&self) -> Option<Seq<char>>;

    /// The constraint the error concerns, if any.
    spec fn constraint_name_view(&self) -> Option<Seq<char>>;

    /// Get the error message the database gave
    fn message(&self) -> (r: &str)
        ensures
            r@ == self.message_view(),
    ;

    /// Get optional error details
    fn details(&self) -> (r: Option<&str>)
        ensures
            opt_str_view(r) == self.details_view(),
    ;

    /// Get additional error hint, optional
    fn hint(&self) -> (r: Option<&str>)
        ensures
            opt_str_view(r) == self.hint_view(),
    ;

    /// Get name of the table this error concerns
    fn table_name(&self) -> (r: Option<&str>)
        ensures
            opt_str_view(r) == self.table_name_view(),
    ;

    /// Get name of the column this error concerns
    fn column_name(&self) -> (r: Option<&str>)
        ensures
            opt_str_view(r) == self.column_name_view(),
    ;

    /// Get name of the constraint this error concerns
    fn constraint_name(&self) -> (r: Option<&str>)
        ensures
            opt_str_view(r) == self.constraint_name_view(),
    ;
}

/// The information about a database error, held as the values that a
/// `DatabaseErrorInformation` gives.
#[derive(Debug)]
pub struct ErrorInformation {
    pub message: String,
    pub details: Option<String>,
    pub hint: Option<String>,
    pub table_name: Option<String>,
    pub column_name: Option<String>,
    pub constraint_name: Option<String>,
}

/// An owned copy of an optional borrowed string.
fn opt_to_owned(o: Option<&str>) -> (r: Option<String>)
    ensures
        opt_string_view(r) == opt_str_view(o),
{
    match o {
        Some(s) => Some(s.to_owned()),
        None => None,
    }
}

impl ErrorInformation {
    /// Takes what `info` reports, field by field.
    pub fn from_information<I: DatabaseErrorInformation>(info: &I) -> (r: Self)
        ensures
            r.message@ == info.message_view(),
            opt_string_view(r.details) == info.details_view(),
            opt_string_view(r.hint) == info.hint_view(),
            opt_string_view(r.table_name) == info.table_name_view(),
            opt_string_view(r.column_name) == info.column_name_view(),
            opt_string_view(r.constraint_name) == info.constraint_name_view(),
    {
        ErrorInformation {
            message: info.message().to_owned(),
            details: opt_to_owned(info.details()),
            hint: opt_to_owned(info.hint()),
            table_name: opt_to_owned(info.table_name()),
            column_name: opt_to_owned(info.column_name()),
            constraint_name: opt_to_owned(info.constraint_name()),
        }
    }
}

impl DatabaseErrorInformation for ErrorInformation {
    open spec fn message_view(&self) -> Seq<char> {
        self.message@
    }

    open spec fn details_view(&self) -> Option<Seq<char>> {
        opt_string_view(self.details)
    }

    open spec fn hint_view(&self) -> Option<Seq<char>> {
        opt_string_view(self.hint)
    }

    open spec fn table_name_view(&self) -> Option<Seq<char>> {
        opt_string_view(self.table_name)
    }

    open spec fn column_name_view(&self) -> Option<Seq<char>> {
        opt_string_view(self.column_name)
    }

    open spec fn constraint_name_view(&self) -> Option<Seq<char>> {
        opt_string_view(self.constraint_name)
    }

    fn message(&self) -> (r: &str) {
        self.message.as_str()
    }

    fn details(&self) -> (r: Option<&str>) {
        opt_as_str(&self.details)
    }

    fn hint(&self) -> (r: Option<&str>) {
        opt_as_str(&self.hint)
    }

    fn table_name(&self) -> (r: Option<&str>) {
        opt_as_str(&self.table_name)
    }

    fn column_name(&self) -> (r: Option<&str>) {
        opt_as_str(&self.column_name)
    }

    fn constraint_name(&self) -> (r: Option<&str>) {
        opt_as_str(&self.constraint_name)
    }
}

/// The kinds of error a database reports.
#[allow(non_camel_case_types)]
#[derive(Debug)]
pub enum DatabaseErrorKind {
    /// A plain message.
    Msg(String),
    /// A unique constraint was violated.
    UniqueViolation(ErrorInformation),
    /// Any other error; match against `_` instead, more kinds may be added.
    __Unknown(ErrorInformation),
}

/// A plain message is its own message, details and hint; it names no table,
/// column or constraint. The other kinds report what their information does.
impl DatabaseErrorInformation for DatabaseErrorKind {
    open spec fn message_view(&self) -> Seq<char> {
        match *self {
            DatabaseErrorKind::UniqueViolation(i) => i.message@,
            DatabaseErrorKind::__Unknown(i) => i.message@,
            DatabaseErrorKind::Msg(s) => s@,
        }
    }

    open spec fn details_view(&self) -> Option<Seq<char>> {
        match *self {
            DatabaseErrorKind::UniqueViolation(i) => opt_string_view(i.details),
            DatabaseErrorKind::__Unknown(i) => opt_string_view(i.details),
            DatabaseErrorKind::Msg(s) => Some(s@),
        }
    }

    open spec fn hint_view(&self) -> Option<Seq<char>> {
        match *self {
            DatabaseErrorKind::UniqueViolation(i) => opt_string_view(i.hint),
            DatabaseErrorKind::__Unknown(i) => opt_string_view(i.hint),
            DatabaseErrorKind::Msg(s) => Some(s@),
        }
    }

    open spec fn table_name_view(&self) -> Option<Seq<char>> {
        match *self {
            DatabaseErrorKind::UniqueViolation(i) => opt_string_view(i.table_name),
            DatabaseErrorKind::__Unknown(i) => opt_string_view(i.table_name),
            DatabaseErrorKind::Msg(_) => None,
        }
    }

    open spec fn column_name_view(&self) -> Option<Seq<char>> {
        match *self {
            DatabaseErrorKind::UniqueViolation(i) => opt_string_view(i.column_name),
            DatabaseErrorKind::__Unknown(i) => opt_string_view(i.column_name),
            DatabaseErrorKind::Msg(_) => None,
        }
    }

    open spec fn constraint_name_view(&self) -> Option<Seq<char>> {
        match *self {
            DatabaseErrorKind::UniqueViolation(i) => opt_string_view(i.constraint_name),
            DatabaseErrorKind::__Unknown(i) => opt_string_view(i.constraint_name),
            DatabaseErrorKind::Msg(_) => None,
        }
    }

    fn message(&self) -> (r: &str) {
        match self {
            DatabaseErrorKind::UniqueViolation(inner) => inner.message(),
            DatabaseErrorKind::__Unknown(inner) => inner.message(),
            DatabaseErrorKind::Msg(s) => s.as_str(),
        }
    }

    fn details(&self) -> (r: Option<&str>) {
        match self {
            DatabaseErrorKind::UniqueViolation(inner) => inner.details(),
            DatabaseErrorKind::__Unknown(inner) => inner.details(),
            DatabaseErrorKind::Msg(s) => Some(s.as_str()),
        }
    }

    fn hint(&self) -> (r: Option<&str>) {
        match self {
            DatabaseErrorKind::UniqueViolation(inner) => inner.hint(),
            DatabaseErrorKind::__Unknown(inner) => inner.hint(),
            DatabaseErrorKind::Msg(s) => Some(s.as_str()),
        }
    }

    fn table_name(&self) -> (r: Option<&str>) {
        match self {
            DatabaseErrorKind::UniqueViolation(inner) => inner.table_name(),
            DatabaseErrorKind::__Unknown(inner) => inner.table_name(),
            DatabaseErrorKind::Msg(_) => None,
        }
    }

    fn column_name(&self) -> (r: Option<&str>) {
        match self {
            DatabaseErrorKind::UniqueViolation(inner) => inner.column_name(),
            DatabaseErrorKind::__Unknown(inner) => inner.column_name(),
            DatabaseErrorKind::Msg(_) => None,
        }
    }

    fn constraint_name(&self) -> (r: Option<&str>) {
        match self {
            DatabaseErrorKind::UniqueViolation(inner) => inner.constraint_name(),
            DatabaseErrorKind::__Unknown(inner) => inner.constraint_name(),
            DatabaseErrorKind::Msg(_) => None,
        }
    }
}

impl PartialEq for DatabaseErrorKind {
    fn eq(&self, other: &DatabaseErrorKind) -> (r: bool) {
        match (self, other) {
            (DatabaseErrorKind::UniqueViolation(a), DatabaseErrorKind::UniqueViolation(b)) => a.message
                == b.message,
            (DatabaseErrorKind::__Unknown(a), DatabaseErrorKind::__Unknown(b)) => a.message
                == b.message,
            _ => false,
        }
    }
}

impl vstd::std_specs::cmp::PartialEqSpecImpl for DatabaseErrorKind {
    open spec fn obeys_eq_spec() -> bool {
        true
    }

    /// Two unique violations, or two unknown errors, are equal when their
    /// messages are; nothing else is equal, not even two plain messages.
    open spec fn eq_spec(&self, other: &DatabaseErrorKind) -> bool {
        match (*self, *other) {
            (DatabaseErrorKind::UniqueViolation(a), DatabaseErrorKind::UniqueViolation(b)) => a.message@
                == b.message@,
            (DatabaseErrorKind::__Unknown(a), DatabaseErrorKind::__Unknown(b)) => a.message@
                == b.message@,
            _ => false,
        }
    }
}

/// An error reported by the database.
#[derive(Debug)]
pub struct DatabaseError(pub DatabaseErrorKind);

impl DatabaseError {
    /// The kind of this error.
    pub fn kind(&self) -> (r: &DatabaseErrorKind)
        ensures
            *r == self.0,
    {
        &self.0
    }
}

} // verus!

verus! {

/// The kinds of error a query can end in.
#[allow(non_camel_case_types)]
#[derive(Debug)]
pub enum ErrorKind {
    /// A plain message.
    Msg(String),
    /// The database reported an error.
    DatabaseError(DatabaseErrorKind),
    /// The query could not be built.
    QueryBuildError(BuildQueryErrorKind),
    /// A string handed to the database held a NUL byte.
    InvalidCString(NulError),
    /// No record was found.
    NotFound,
    /// A value could not be read back; the error's message.
    DeserializationError(String),
    /// A value could not be written; the error's message.
    SerializationError(String),
    /// Match against `_` instead, more variants may be added.
    __Nonexhaustive,
}

impl PartialEq for ErrorKind {
    fn eq(&self, other: &ErrorKind) -> (r: bool) {
        match (self, other) {
            (ErrorKind::InvalidCString(a), ErrorKind::InvalidCString(b)) => a == b,
            (ErrorKind::DatabaseError(a), ErrorKind::DatabaseError(b)) => a == b,
            (ErrorKind::NotFound, ErrorKind::NotFound) => true,
            _ => false,
        }
    }
}

impl vstd::std_specs::cmp::PartialEqSpecImpl for ErrorKind {
    open spec fn obeys_eq_spec() -> bool {
        true
    }

    /// Invalid C strings compare by their `NulError`, database errors by
    /// their kind, `NotFound` equals `NotFound`; nothing else is equal.
    open spec fn eq_spec(&self, other: &ErrorKind) -> bool {
        match (*self, *other) {
            (ErrorKind::InvalidCString(a), ErrorKind::InvalidCString(b)) => PartialEqSpec::eq_spec(&a, &b),
            (ErrorKind::DatabaseError(a), ErrorKind::DatabaseError(b)) => PartialEqSpec::eq_spec(&a, &b),
            (ErrorKind::NotFound, ErrorKind::NotFound) => true,
            _ => false,
        }
    }
}

/// The error of a query: its kind, then the error that caused it and the
/// backtrace taken when it arose, if any. The library records neither.
#[derive(Debug)]
pub struct Error(pub ErrorKind, pub (Option<Box<Error>>, Option<String>));

impl Error {
    /// The kind of this error.
    pub fn kind(&self) -> (r: &ErrorKind)
        ensures
            *r == self.0,
    {
        &self.0
    }

    /// The kind of this error, giving up the rest.
    pub fn into_kind(self) -> (r: ErrorKind)
        ensures
            r == self.0,
    {
        self.0
    }
}

impl PartialEq for Error {
    fn eq(&self, other: &Error) -> (r: bool) {
        self.kind() == other.kind()
    }
}

impl vstd::std_specs::cmp::PartialEqSpecImpl for Error {
    open spec fn obeys_eq_spec() -> bool {
        true
    }

    /// Two errors are equal when their kinds are.
    open spec fn eq_spec(&self, other: &Error) -> bool {
        PartialEqSpec::eq_spec(&self.0, &other.0)
    }
}

impl From<ErrorKind> for Error {
    fn from(kind: ErrorKind) -> (r: Error) {
        Error(kind, (None, None))
    }
}

impl vstd::std_specs::convert::FromSpecImpl<ErrorKind> for Error {
    open spec fn obeys_from_spec() -> bool {
        true
    }

    open spec fn from_spec(kind: ErrorKind) -> Error {
        Error(kind, (None, None))
    }
}

impl From<NulError> for Error {
    fn from(e: NulError) -> (r: Error) {
        Error(ErrorKind::InvalidCString(e), (None, None))
    }
}

impl vstd::std_specs::convert::FromSpecImpl<NulError> for Error {
    open spec fn obeys_from_spec() -> bool {
        true
    }

    open spec fn from_spec(e: NulError) -> Error {
        Error(ErrorKind::InvalidCString(e), (None, None))
    }
}

impl From<DatabaseError> for Error {
    fn from(e: DatabaseError) -> (r: Error) {
        Error(ErrorKind::DatabaseError(e.0), (None, None))
    }
}

impl vstd::std_specs::convert::FromSpecImpl<DatabaseError> for Error {
    open spec fn obeys_from_spec() -> bool {
        true
    }

    open spec fn from_spec(e: DatabaseError) -> Error {
        Error(ErrorKind::DatabaseError(e.0), (None, None))
    }
}

impl From<BuildQueryError> for Error {
    fn from(e: BuildQueryError) -> (r: Error) {
        Error(ErrorKind::QueryBuildError(e.0), (None, None))
    }
}

impl vstd::std_specs::convert::FromSpecImpl<BuildQueryError> for Error {
    open spec fn obeys_from_spec() -> bool {
        true
    }

    open spec fn from_spec(e: BuildQueryError) -> Error {
        Error(ErrorKind::QueryBuildError(e.0), (None, None))
    }
}

/// The result of a query.
pub type QueryResult<T> = Result<T, Error>;

/// The kinds of error that opening a connection can end in.
pub enum ConnectionErrorKind {
    /// A plain message.
    Msg(String),
    /// The database URL held a NUL byte.
    InvalidCString(NulError),
    /// The database refused the connection; its message.
    BadConnection(String),
}

/// The error of opening a connection.
pub struct ConnectionError(pub ConnectionErrorKind);

impl ConnectionError {
    /// The kind of this error.
    pub fn kind(&self) -> (r: &ConnectionErrorKind)
        ensures
            *r == self.0,
    {
        &self.0
    }
}

impl From<ConnectionErrorKind> for ConnectionError {
    fn from(kind: ConnectionErrorKind) -> (r: ConnectionError) {
        ConnectionError(kind)
    }
}

impl vstd::std_specs::convert::FromSpecImpl<ConnectionErrorKind> for ConnectionError {
    open spec fn obeys_from_spec() -> bool {
        true
    }

    open spec fn from_spec(kind: ConnectionErrorKind) -> ConnectionError {
        ConnectionError(kind)
    }
}

impl From<NulError> for ConnectionError {
    fn from(e: NulError) -> (r: ConnectionError) {
        ConnectionError(ConnectionErrorKind::InvalidCString(e))
    }
}

impl vstd::std_specs::convert::FromSpecImpl<NulError> for ConnectionError {
    open spec fn obeys_from_spec() -> bool {
        true
    }

    open spec fn from_spec(e: NulError) -> ConnectionError {
        ConnectionError(ConnectionErrorKind::InvalidCString(e))
    }
}

/// The result of opening a connection.
pub type ConnectionResult<T> = Result<T, ConnectionError>;

/// The error of a transaction: either it could not be opened, or the work
/// inside it returned an error of its own.
pub enum TransactionError<E> {
    CouldntCreateTransaction(Error),
    UserReturnedError(E),
}

/// The result of a transaction.
pub type TransactionResult<T, E> = Result<T, TransactionError<E>>;

} // verus!

verus! {

/// Equality of `NulError`s is symmetric and transitive, as `PartialEq` asks.
pub proof fn law_nul_error_eq_partial_equivalence(a: NulError, b: NulError, c: NulError)
    ensures
        PartialEqSpec::eq_spec(&a, &b) == PartialEqSpec::eq_spec(&b, &a),
        PartialEqSpec::eq_spec(&a, &b) && PartialEqSpec::eq_spec(&b, &c) ==> PartialEqSpec::eq_spec(&a, &c),
{
}

/// Equality of database error kinds is symmetric and transitive, as
/// `PartialEq` asks.
pub proof fn law_database_error_kind_eq_partial_equivalence(
    a: DatabaseErrorKind,
    b: DatabaseErrorKind,
    c: DatabaseErrorKind,
)
    ensures
        PartialEqSpec::eq_spec(&a, &b) == PartialEqSpec::eq_spec(&b, &a),
        PartialEqSpec::eq_spec(&a, &b) && PartialEqSpec::eq_spec(&b, &c) ==> PartialEqSpec::eq_spec(&a, &c),
{
}

/// Equality of error kinds is symmetric and transitive, as `PartialEq` asks.
pub proof fn law_error_kind_eq_partial_equivalence(a: ErrorKind, b: ErrorKind, c: ErrorKind)
    ensures
        PartialEqSpec::eq_spec(&a, &b) == PartialEqSpec::eq_spec(&b, &a),
        PartialEqSpec::eq_spec(&a, &b) && PartialEqSpec::eq_spec(&b, &c) ==> PartialEqSpec::eq_spec(&a, &c),
{
}

/// Equality of errors is symmetric and transitive, as `PartialEq` asks.
pub proof fn law_error_eq_partial_equivalence(a: Error, b: Error, c: Error)
    ensures
        PartialEqSpec::eq_spec(&a, &b) == PartialEqSpec::eq_spec(&b, &a),
        PartialEqSpec::eq_spec(&a, &b) && PartialEqSpec::eq_spec(&b, &c) ==> PartialEqSpec::eq_spec(&a, &c),
{
    law_error_kind_eq_partial_equivalence(a.0, b.0, c.0);
}

/// Equality of error kinds is not reflexive: a plain message, a build error,
/// a (de)serialization error equals no error, not even itself; only
/// `NotFound`, invalid C strings and database errors of a unique violation or
/// an unknown kind can equal anything.
pub proof fn law_error_kind_eq_only_for_comparable_kinds(a: ErrorKind, b: ErrorKind)
    requires
        PartialEqSpec::eq_spec(&a, &b),
    ensures
        a is NotFound || a is InvalidCString || (a matches ErrorKind::DatabaseError(k) && (k is UniqueViolation || k is __Unknown)),
{
}

} // verus!

verus! {

impl NulError {
    /// The description of the error.
    pub fn description(&self) -> (r: &'static str)
        ensures
            r@ == "nul byte found in data"@,
    {
        "nul byte found in data"
    }

    /// The text that shows the error: where the NUL byte is.
    pub open spec fn display_view(self) -> Seq<char> {
        "nul byte found in provided data at position: "@ + decimal(self.0 as nat)
    }

    /// The text that shows the error: where the NUL byte is.
    pub fn to_display_string(&self) -> (r: String)
        ensures
            r@ == self.display_view(),
    {
        let mut out = String::new();
        out.append("nul byte found in provided data at position: ");
        push_decimal(&mut out, self.0);
        out
    }
}

impl DatabaseErrorKind {
    /// The description of the error: its kind, or the plain message.
    pub open spec fn description_view(self) -> Seq<char> {
        match self {
            DatabaseErrorKind::UniqueViolation(_) => "Unique violation"@,
            DatabaseErrorKind::__Unknown(_) => "Unknown"@,
            DatabaseErrorKind::Msg(s) => s@,
        }
    }

    /// The description of the error: its kind, or the plain message.
    pub fn description(&self) -> (r: &str)
        ensures
            r@ == self.description_view(),
    {
        match self {
            DatabaseErrorKind::UniqueViolation(_) => "Unique violation",
            DatabaseErrorKind::__Unknown(_) => "Unknown",
            DatabaseErrorKind::Msg(s) => s.as_str(),
        }
    }

    /// The text that shows the error: its kind and the database's message,
    /// or the plain message.
    pub open spec fn display_view(self) -> Seq<char> {
        match self {
            DatabaseErrorKind::UniqueViolation(i) => "Database error (Unique violation): "@ + i.message@,
            DatabaseErrorKind::__Unknown(i) => "Database error (Unknown error): "@ + i.message@,
            DatabaseErrorKind::Msg(s) => s@,
        }
    }

    /// The text that shows the error: its kind and the database's message,
    /// or the plain message.
    pub fn to_display_string(&self) -> (r: String)
        ensures
            r@ == self.display_view(),
    {
        let mut out = String::new();
        match self {
            DatabaseErrorKind::UniqueViolation(i) => {
                out.append("Database error (Unique violation): ");
                out.append(i.message());
            },
            DatabaseErrorKind::__Unknown(i) => {
                out.append("Database error (Unknown error): ");
                out.append(i.message());
            },
            DatabaseErrorKind::Msg(s) => {
                out.append(s.as_str());
            },
        }
        out
    }
}

impl ErrorKind {
    /// The description of the error.
    pub open spec fn description_view(self) -> Seq<char> {
        match self {
            ErrorKind::Msg(s) => s@,
            ErrorKind::DatabaseError(k) => k.description_view(),
            ErrorKind::QueryBuildError(k) => k.description_view(),
            ErrorKind::InvalidCString(_) => "nul byte found in data"@,
            ErrorKind::NotFound => "Record not found"@,
            ErrorKind::DeserializationError(m) => m@,
            ErrorKind::SerializationError(m) => m@,
            ErrorKind::__Nonexhaustive => "__Nonexhaustive"@,
        }
    }

    /// The description of the error: that of the error it wraps, or of its
    /// kind, or the plain message.
    pub fn description(&self) -> (r: &str)
        ensures
            r@ == self.description_view(),
    {
        match self {
            ErrorKind::Msg(s) => s.as_str(),
            ErrorKind::DatabaseError(k) => k.description(),
            ErrorKind::QueryBuildError(k) => k.description(),
            ErrorKind::InvalidCString(e) => e.description(),
            ErrorKind::NotFound => "Record not found",
            ErrorKind::DeserializationError(m) => m.as_str(),
            ErrorKind::SerializationError(m) => m.as_str(),
            ErrorKind::__Nonexhaustive => "__Nonexhaustive",
        }
    }
}

impl Error {
    /// The description of the error: that of its kind.
    pub fn description(&self) -> (r: &str)
        ensures
            r@ == self.0.description_view(),
    {
        self.0.description()
    }
}

impl ConnectionErrorKind {
    /// The description of the error.
    pub open spec fn description_view(self) -> Seq<char> {
        match self {
            ConnectionErrorKind::Msg(s) => s@,
            ConnectionErrorKind::InvalidCString(_) => "nul byte found in data"@,
            ConnectionErrorKind::BadConnection(_) => "Bad connection error"@,
        }
    }

    /// The description of the error.
    pub fn description(&self) -> (r: &str)
        ensures
            r@ == self.description_view(),
    {
        match self {
            ConnectionErrorKind::Msg(s) => s.as_str(),
            ConnectionErrorKind::InvalidCString(e) => e.description(),
            ConnectionErrorKind::BadConnection(_) => "Bad connection error",
        }
    }

    /// The text that shows the error.
    pub open spec fn display_view(self) -> Seq<char> {
        match self {
            ConnectionErrorKind::Msg(s) => s@,
            ConnectionErrorKind::InvalidCString(e) => e.display_view(),
            ConnectionErrorKind::BadConnection(m) => "Bad connection error: "@ + m@,
        }
    }

    /// The text that shows the error.
    pub fn to_display_string(&self) -> (r: String)
        ensures
            r@ == self.display_view(),
    {
        match self {
            ConnectionErrorKind::Msg(s) => s.clone(),
            ConnectionErrorKind::InvalidCString(e) => e.to_display_string(),
            ConnectionErrorKind::BadConnection(m) => {
                let mut out = String::new();
                out.append("Bad connection error: ");
                out.append(m.as_str());
                out
            },
        }
    }
}

impl ConnectionError {
    /// The description of the error: that of its kind.
    pub fn description(&self) -> (r: &str)
        ensures
            r@ == self.0.description_view(),
    {
        self.0.description()
    }

    /// The text that shows the error: that of its kind.
    pub fn to_display_string(&self) -> (r: String)
        ensures
            r@ == self.0.display_view(),
    {
        self.0.to_display_string()
    }
}

} // verus!

verus! {

impl ErrorKind {
    /// The text that shows the error.
    pub open spec fn display_view(self) -> Seq<char> {
        match self {
            ErrorKind::Msg(s) => s@,
            ErrorKind::DatabaseError(k) => k.display_view(),
            ErrorKind::QueryBuildError(k) => k.display_view(),
            ErrorKind::InvalidCString(e) => e.display_view(),
            ErrorKind::NotFound => "Record not found"@,
            ErrorKind::DeserializationError(m) => "Deserialization error: "@ + m@,
            ErrorKind::SerializationError(m) => "Serialization error: "@ + m@,
            ErrorKind::__Nonexhaustive => "__Nonexhaustive"@,
        }
    }

    /// The text that shows the error: that of the error it wraps, or of its
    /// kind with its message, or the plain message.
    pub fn to_display_string(&self) -> (r: String)
        ensures
            r@ == self.display_view(),
    {
        match self {
            ErrorKind::Msg(s) => s.clone(),
            ErrorKind::DatabaseError(k) => k.to_display_string(),
            ErrorKind::QueryBuildError(k) => k.to_display_string(),
            ErrorKind::InvalidCString(e) => e.to_display_string(),
            ErrorKind::NotFound => "Record not found".to_owned(),
            ErrorKind::DeserializationError(m) => {
                let mut out = String::new();
                out.append("Deserialization error: ");
                out.append(m.as_str());
                out
            },
            ErrorKind::SerializationError(m) => {
                let mut out = String::new();
                out.append("Serialization error: ");
                out.append(m.as_str());
                out
            },
            ErrorKind::__Nonexhaustive => "__Nonexhaustive".to_owned(),
        }
    }
}

impl Error {
    /// The text that shows the error: that of its kind.
    pub fn to_display_string(&self) -> (r: String)
        ensures
            r@ == self.0.display_view(),
    {
        self.0.to_display_string()
    }
}

} // verus!

verus! {

/// A plain database message names no table, column or constraint.
pub proof fn law_plain_message_names_nothing(s: String)
    ensures
        DatabaseErrorKind::Msg(s).table_name_view() is None,
        DatabaseErrorKind::Msg(s).column_name_view() is None,
        DatabaseErrorKind::Msg(s).constraint_name_view() is None,
{
}

} // verus!

verus! {

/// Two database error kinds are equal exactly when both are unique
/// violations, or both unknown errors, with the same message: kinds with
/// different messages are never equal, and a plain message equals nothing.
pub proof fn law_database_error_kind_eq_by_message(a: DatabaseErrorKind, b: DatabaseErrorKind)
    ensures
        PartialEqSpec::eq_spec(&a, &b) <==> (((a is UniqueViolation && b is UniqueViolation)
            || (a is __Unknown && b is __Unknown)) && a.message_view() == b.message_view()),
{
}

/// Two database errors of a query are equal exactly when their database
/// error kinds are: in particular two unique violations with different
/// messages are unequal.
pub proof fn law_error_kind_database_errors_eq(a: DatabaseErrorKind, b: DatabaseErrorKind)
    ensures
        PartialEqSpec::eq_spec(&ErrorKind::DatabaseError(a), &ErrorKind::DatabaseError(b))
            == PartialEqSpec::eq_spec(&a, &b),
        PartialEqSpec::eq_spec(&ErrorKind::DatabaseError(a), &ErrorKind::DatabaseError(b))
            ==> a.message_view() == b.message_view(),
        (a is UniqueViolation && b is UniqueViolation && a.message_view() != b.message_view()) ==> !PartialEqSpec::eq_spec(
            &ErrorKind::DatabaseError(a),
            &ErrorKind::DatabaseError(b),
        ),
{
}

/// Two errors whose kinds are database errors are equal exactly when both are
/// unique violations, or both unknown errors, with the same message.
pub proof fn law_error_database_errors_eq(
    a: DatabaseErrorKind,
    b: DatabaseErrorKind,
    sa: (Option<Box<Error>>, Option<String>),
    sb: (Option<Box<Error>>, Option<String>),
)
    ensures
        PartialEqSpec::eq_spec(&Error(ErrorKind::DatabaseError(a), sa), &Error(ErrorKind::DatabaseError(b), sb))
            <==> (((a is UniqueViolation && b is UniqueViolation) || (a is __Unknown && b is __Unknown))
            && a.message_view() == b.message_view()),
{
}

/// Two invalid C strings compare by the position of the NUL byte and the
/// bytes given.
pub proof fn law_invalid_c_string_eq(a: NulError, b: NulError)
    ensures
        PartialEqSpec::eq_spec(&ErrorKind::InvalidCString(a), &ErrorKind::InvalidCString(b))
            <==> (a.0 == b.0 && a.1@ == b.1@),
{
}

} // verus!
