//! The errors of finding and running migrations.

use vstd::prelude::*;
use vstd::std_specs::cmp::PartialEqSpec;
use crate::result::{Error, ErrorKind, TransactionError};

verus! {

/// A path, held as its components: `/` for the root, `.` for a leading
/// current directory, `..` for a parent, and the names in between. Two paths
/// are the same path exactly when their components are.
pub struct MigrationPath {
    pub components: Vec<String>,
}

/// The views of a sequence of strings.
pub open spec fn component_views(s: Seq<String>) -> Seq<Seq<char>> {
    s.map_values(|x: String| x@)
}

impl MigrationPath {
    /// The path of the given components.
    pub fn from_components(components: Vec<String>) -> (r: Self)
        ensures
            r.components@ == components@,
    {
        MigrationPath { components }
    }
}

/// Whether two sequences of strings hold the same strings, in order.
pub fn strings_eq(a: &Vec<String>, b: &Vec<String>) -> (r: bool)
    ensures
        r == (component_views(a@) == component_views(b@)),
{
    if a.len() != b.len() {
        assert(component_views(a@).len() != component_views(b@).len());
        return false;
    }
    let mut i: usize = 0;
    while i < a.len()
        invariant
            a@.len() == b@.len(),
            i <= a@.len(),
            forall|j: int| 0 <= j < i ==> a@[j]@ == b@[j]@,
        decreases a@.len() - i,
    {
        if a[i] != b[i] {
            assert(component_views(a@)[i as int] != component_views(b@)[i as int]);
            return false;
        }
        i = i + 1;
    }
    assert(component_views(a@) =~= component_views(b@));
    true
}

impl PartialEq for MigrationPath {
    fn eq(&self, other: &MigrationPath) -> (r: bool) {
        strings_eq(&self.components, &other.components)
    }
}

impl vstd::std_specs::cmp::PartialEqSpecImpl for MigrationPath {
    open spec fn obeys_eq_spec() -> bool {
        true
    }

    open spec fn eq_spec(&self, other: &MigrationPath) -> bool {
        component_views(self.components@) == component_views(other.components@)
    }
}

/// The kinds of error that finding migrations can end in.
pub enum MigrationErrorKind {
    /// A plain message.
    Msg(String),
    /// An I/O error; its message.
    IoError(String),
    /// No migrations directory was found in this directory or any parent.
    MigrationDirectoryNotFound,
    /// A migration directory is not named `<timestamp>_<name>`, or holds
    /// more than `up.sql` and `down.sql`.
    UnknownMigrationFormat(MigrationPath),
    /// No migration of the version to revert was found.
    UnknownMigrationVersion(String),
}

impl PartialEq for MigrationErrorKind {
    fn eq(&self, other: &Self) -> (r: bool) {
        match (self, other) {
            (MigrationErrorKind::MigrationDirectoryNotFound, MigrationErrorKind::MigrationDirectoryNotFound) => true,
            (MigrationErrorKind::UnknownMigrationFormat(p1), MigrationErrorKind::UnknownMigrationFormat(p2)) => p1
                == p2,
            _ => false,
        }
    }
}

impl vstd::std_specs::cmp::PartialEqSpecImpl for MigrationErrorKind {
    open spec fn obeys_eq_spec() -> bool {
        true
    }

    /// A missing directory equals a missing directory, two unknown formats
    /// are equal when their paths are; nothing else is equal.
    open spec fn eq_spec(&self, other: &MigrationErrorKind) -> bool {
        match (*self, *other) {
            (MigrationErrorKind::MigrationDirectoryNotFound, MigrationErrorKind::MigrationDirectoryNotFound) => true,
            (MigrationErrorKind::UnknownMigrationFormat(p1), MigrationErrorKind::UnknownMigrationFormat(p2)) => PartialEqSpec::eq_spec(&p1, &p2),
            _ => false,
        }
    }
}

/// The error of finding migrations.
pub struct MigrationError(pub MigrationErrorKind);

impl MigrationError {
    /// The kind of this error.
    pub fn kind(&self) -> (r: &MigrationErrorKind)
        ensures
            *r == self.0,
    {
        &self.0
    }
}

/// The result of finding migrations.
pub type MigrationResult<T> = Result<T, MigrationError>;

/// The kinds of error that running migrations can end in.
pub enum RunMigrationsErrorKind {
    /// A plain message.
    Msg(String),
    /// Finding the migrations failed.
    MigrationError(MigrationErrorKind),
    /// A query failed.
    QueryError(ErrorKind),
    /// An I/O error; its message.
    IoError(String),
}

/// The error of running migrations.
pub struct RunMigrationsError(pub RunMigrationsErrorKind);

impl RunMigrationsError {
    /// The kind of this error.
    pub fn kind(&self) -> (r: &RunMigrationsErrorKind)
        ensures
            *r == self.0,
    {
        &self.0
    }
}

/// The result of running migrations.
pub type RunMigrationsResult<T> = Result<T, RunMigrationsError>;

impl From<MigrationError> for RunMigrationsError {
    fn from(e: MigrationError) -> (r: RunMigrationsError) {
        RunMigrationsError(RunMigrationsErrorKind::MigrationError(e.0))
    }
}

impl vstd::std_specs::convert::FromSpecImpl<MigrationError> for RunMigrationsError {
    open spec fn obeys_from_spec() -> bool {
        true
    }

    open spec fn from_spec(e: MigrationError) -> RunMigrationsError {
        RunMigrationsError(RunMigrationsErrorKind::MigrationError(e.0))
    }
}

impl From<Error> for RunMigrationsError {
    fn from(e: Error) -> (r: RunMigrationsError) {
        RunMigrationsError(RunMigrationsErrorKind::QueryError(e.0))
    }
}

impl vstd::std_specs::convert::FromSpecImpl<Error> for RunMigrationsError {
    open spec fn obeys_from_spec() -> bool {
        true
    }

    open spec fn from_spec(e: Error) -> RunMigrationsError {
        RunMigrationsError(RunMigrationsErrorKind::QueryError(e.0))
    }
}

impl From<TransactionError<RunMigrationsError>> for RunMigrationsError {
    fn from(e: TransactionError<RunMigrationsError>) -> (r: RunMigrationsError) {
        match e {
            TransactionError::CouldntCreateTransaction(e) => RunMigrationsError::from(e),
            TransactionError::UserReturnedError(e) => e,
        }
    }
}

impl vstd::std_specs::convert::FromSpecImpl<TransactionError<RunMigrationsError>> for RunMigrationsError {
    open spec fn obeys_from_spec() -> bool {
        true
    }

    /// A transaction that could not be opened becomes a query error; an error
    /// of the work inside the transaction is handed back as it is.
    open spec fn from_spec(e: TransactionError<RunMigrationsError>) -> RunMigrationsError {
        match e {
            TransactionError::CouldntCreateTransaction(e) => RunMigrationsError(
                RunMigrationsErrorKind::QueryError(e.0),
            ),
            TransactionError::UserReturnedError(e) => e,
        }
    }
}

} // verus!

verus! {

/// Equality of migration error kinds is symmetric and transitive, as
/// `PartialEq` asks.
pub proof fn law_migration_error_kind_eq_partial_equivalence(
    a: MigrationErrorKind,
    b: MigrationErrorKind,
    c: MigrationErrorKind,
)
    ensures
        PartialEqSpec::eq_spec(&a, &b) == PartialEqSpec::eq_spec(&b, &a),
        PartialEqSpec::eq_spec(&a, &b) && PartialEqSpec::eq_spec(&b, &c) ==> PartialEqSpec::eq_spec(&a, &c),
{
}

/// A failure to open a transaction becomes a query error of the same kind;
/// the error of the work inside a transaction comes back unchanged.
pub proof fn law_transaction_error_conversion(e: Error, user: RunMigrationsError)
    ensures
        <RunMigrationsError as vstd::std_specs::convert::FromSpec<TransactionError<RunMigrationsError>>>::from_spec(
            TransactionError::CouldntCreateTransaction(e),
        ) == RunMigrationsError(RunMigrationsErrorKind::QueryError(e.0)),
        <RunMigrationsError as vstd::std_specs::convert::FromSpec<TransactionError<RunMigrationsError>>>::from_spec(
            TransactionError::UserReturnedError(user),
        ) == user,
{
}

} // verus!

verus! {

impl MigrationErrorKind {
    /// The description of the error; it is also the text that shows it.
    pub open spec fn description_view(self) -> Seq<char> {
        match self {
            MigrationErrorKind::Msg(s) => s@,
            MigrationErrorKind::IoError(m) => m@,
            MigrationErrorKind::MigrationDirectoryNotFound => "Unable to find migrations directory in this directory or any parent directories."@,
            MigrationErrorKind::UnknownMigrationFormat(_) => "Invalid migration directory, the directory's name should be <timestamp>_<name_of_migration>, and it should only contain up.sql and down.sql."@,
            MigrationErrorKind::UnknownMigrationVersion(_) => "Unable to find migration version to revert in the migrations directory."@,
        }
    }

    /// The description of the error; it is also the text that shows it.
    pub fn description(&self) -> (r: &str)
        ensures
            r@ == self.description_view(),
    {
        match self {
            MigrationErrorKind::Msg(s) => s.as_str(),
            MigrationErrorKind::IoError(m) => m.as_str(),
            MigrationErrorKind::MigrationDirectoryNotFound => "Unable to find migrations directory in this directory or any parent directories.",
            MigrationErrorKind::UnknownMigrationFormat(_) => "Invalid migration directory, the directory's name should be <timestamp>_<name_of_migration>, and it should only contain up.sql and down.sql.",
            MigrationErrorKind::UnknownMigrationVersion(_) => "Unable to find migration version to revert in the migrations directory.",
        }
    }
}

impl RunMigrationsErrorKind {
    /// The description of the error: that of the error it wraps, or the
    /// plain message.
    pub open spec fn description_view(self) -> Seq<char> {
        match self {
            RunMigrationsErrorKind::Msg(s) => s@,
            RunMigrationsErrorKind::MigrationError(k) => k.description_view(),
            RunMigrationsErrorKind::QueryError(k) => k.description_view(),
            RunMigrationsErrorKind::IoError(m) => m@,
        }
    }

    /// The description of the error: that of the error it wraps, or the
    /// plain message.
    pub fn description(&self) -> (r: &str)
        ensures
            r@ == self.description_view(),
    {
        match self {
            RunMigrationsErrorKind::Msg(s) => s.as_str(),
            RunMigrationsErrorKind::MigrationError(k) => k.description(),
            RunMigrationsErrorKind::QueryError(k) => k.description(),
            RunMigrationsErrorKind::IoError(m) => m.as_str(),
        }
    }
}

} // verus!

verus! {

/// Two paths are the same path exactly when they have the same number of
/// components and each component equals the one at its place in the other.
pub proof fn law_migration_path_eq_by_components(p: MigrationPath, q: MigrationPath)
    ensures
        PartialEqSpec::eq_spec(&p, &q) <==> (p.components@.len() == q.components@.len()
            && forall|i: int| 0 <= i < p.components@.len() ==> #[trigger] p.components@[i]@ == q.components@[i]@),
{
    let a = component_views(p.components@);
    let b = component_views(q.components@);
    assert(a.len() == p.components@.len());
    assert(b.len() == q.components@.len());
    assert(forall|i: int| 0 <= i < p.components@.len() ==> #[trigger] a[i] == p.components@[i]@);
    assert(forall|i: int| 0 <= i < q.components@.len() ==> #[trigger] b[i] == q.components@[i]@);
    if PartialEqSpec::eq_spec(&p, &q) {
        assert(a == b);
        assert forall|i: int| 0 <= i < p.components@.len() implies #[trigger] p.components@[i]@ == q.components@[i]@ by {
            assert(a[i] == b[i]);
        }
    }
    if p.components@.len() == q.components@.len()
        && forall|i: int| 0 <= i < p.components@.len() ==> #[trigger] p.components@[i]@ == q.components@[i]@ {
        assert(a =~= b);
    }
}

/// Two unknown migration formats are equal exactly when their paths have the
/// same components, in the same order.
pub proof fn law_unknown_migration_format_eq(p: MigrationPath, q: MigrationPath)
    ensures
        PartialEqSpec::eq_spec(&MigrationErrorKind::UnknownMigrationFormat(p), &MigrationErrorKind::UnknownMigrationFormat(q))
            <==> (p.components@.len() == q.components@.len()
            && forall|i: int| 0 <= i < p.components@.len() ==> #[trigger] p.components@[i]@ == q.components@[i]@),
{
    law_migration_path_eq_by_components(p, q);
}

} // verus!
