//! Migrations: the table that records which ran, the queries on it, and
//! what is made of their rows.

use vstd::prelude::*;

pub mod errors;
pub use self::errors::{
    MigrationError, MigrationErrorKind, MigrationPath, MigrationResult, RunMigrationsError,
    RunMigrationsErrorKind, RunMigrationsResult,
};
use crate::expression::{Column, QuerySource, TableColumn};
use crate::query_builder::{AstPass, Context, QueryFragment, SqliteQueryBuilder};
use crate::result::{Error, ErrorKind, QueryResult};

verus! {

/// The SQL that creates the table of migrations that ran, if it is missing.
pub const CREATE_MIGRATIONS_TABLE: &'static str = "CREATE TABLE IF NOT EXISTS __diesel_schema_migrations (version VARCHAR(50) PRIMARY KEY NOT NULL,run_on TIMESTAMP NOT NULL DEFAULT CURRENT_TIMESTAMP)";

/// The table of migrations that ran, `__diesel_schema_migrations`.
pub struct MigrationsTable;

impl QuerySource for MigrationsTable {}

/// The column of the migrations table that holds the versions.
pub fn version_column() -> (r: TableColumn<MigrationsTable, crate::types::VarChar>)
    ensures
        r.table_view() == "__diesel_schema_migrations"@,
        r.name_view() == "version"@,
{
    TableColumn::new("__diesel_schema_migrations".to_owned(), "version".to_owned())
}

/// The query of the versions of the migrations that ran.
pub fn previously_run_migration_versions_sql() -> (r: String)
    ensures
        r@ == "SELECT __diesel_schema_migrations.version FROM __diesel_schema_migrations"@,
{
    let column = version_column();
    let mut pass: AstPass<()> = AstPass::new();
    pass.push_sql("SELECT ");
    let _ = column.walk_ast(&mut pass);
    pass.push_sql(" FROM ");
    let _ = pass.push_identifier("__diesel_schema_migrations");
    let (sql, _, _) = pass.finish();
    proof {
        reveal_strlit("SELECT ");
        reveal_strlit(".");
        reveal_strlit("__diesel_schema_migrations");
        reveal_strlit("version");
        reveal_strlit(" FROM ");
        reveal_strlit("SELECT __diesel_schema_migrations.version FROM __diesel_schema_migrations");
        assert(sql@ =~= "SELECT __diesel_schema_migrations.version FROM __diesel_schema_migrations"@);
    }
    sql
}

/// The query of the greatest version of the migrations that ran, limited to
/// its first row.
pub fn latest_run_migration_version_sql() -> (r: String)
    ensures
        r@ == "SELECT MAX(__diesel_schema_migrations.version) FROM __diesel_schema_migrations LIMIT 1"@,
{
    let column = version_column();
    let mut pass: AstPass<()> = AstPass::new();
    pass.push_sql("SELECT MAX(");
    let _ = column.walk_ast(&mut pass);
    pass.push_sql(") FROM ");
    let _ = pass.push_identifier("__diesel_schema_migrations");
    pass.push_sql(" LIMIT 1");
    let (sql, _, _) = pass.finish();
    proof {
        reveal_strlit("SELECT MAX(");
        reveal_strlit(".");
        reveal_strlit("__diesel_schema_migrations");
        reveal_strlit("version");
        reveal_strlit(") FROM ");
        reveal_strlit(" LIMIT 1");
        reveal_strlit("SELECT MAX(__diesel_schema_migrations.version) FROM __diesel_schema_migrations LIMIT 1");
        assert(sql@ =~= "SELECT MAX(__diesel_schema_migrations.version) FROM __diesel_schema_migrations LIMIT 1"@);
    }
    sql
}

/// The statement that records a migration as run; its one bind is the
/// migration's version.
pub fn insert_new_migration_sql() -> (r: String)
    ensures
        r@ == "INSERT INTO __diesel_schema_migrations (version) VALUES (?)"@,
{
    let mut b = SqliteQueryBuilder::new();
    b.push_context(Context::Insert);
    b.push_sql("INSERT INTO ");
    let _ = b.push_identifier("__diesel_schema_migrations");
    b.push_sql(" (");
    let _ = b.push_identifier("version");
    b.push_sql(") VALUES (");
    b.push_bound_value(Some(Vec::new()));
    b.push_sql(")");
    b.pop_context();
    let sql = b.into_sql();
    proof {
        reveal_strlit("INSERT INTO ");
        reveal_strlit("__diesel_schema_migrations");
        reveal_strlit(" (");
        reveal_strlit("version");
        reveal_strlit(") VALUES (");
        reveal_strlit("?");
        reveal_strlit(")");
        reveal_strlit("INSERT INTO __diesel_schema_migrations (version) VALUES (?)");
        assert(sql@ =~= "INSERT INTO __diesel_schema_migrations (version) VALUES (?)"@);
    }
    sql
}

/// Whether `s` holds a string of view `x`.
pub open spec fn holds_view(s: Seq<String>, x: Seq<char>) -> bool {
    exists|i: int| 0 <= i < s.len() && s[i]@ == x
}

/// Whether no two strings of `s` are the same.
pub open spec fn distinct_views(s: Seq<String>) -> bool {
    forall|i: int, j: int| 0 <= i < j < s.len() ==> s[i]@ != s[j]@
}

/// Whether `v` holds a string equal to `x`.
fn contains_string(v: &Vec<String>, x: &String) -> (r: bool)
    ensures
        r == holds_view(v@, x@),
{
    let mut i: usize = 0;
    while i < v.len()
        invariant
            i <= v@.len(),
            forall|j: int| 0 <= j < i ==> v@[j]@ != x@,
        decreases v@.len() - i,
    {
        if v[i] == *x {
            return true;
        }
        i = i + 1;
    }
    false
}

/// The set of versions of the migrations that ran, from the rows of their
/// query: each version once, in the order it first comes.
pub fn previously_run_migration_versions(rows: Vec<String>) -> (r: Vec<String>)
    ensures
        distinct_views(r@),
        forall|x: Seq<char>| holds_view(r@, x) <==> holds_view(rows@, x),
{
    let ghost all = rows@;
    let mut rest = rows;
    let mut out: Vec<String> = Vec::new();
    let ghost mut taken: int = 0;
    while rest.len() > 0
        invariant
            0 <= taken <= all.len(),
            rest@ == all.subrange(taken, all.len() as int),
            distinct_views(out@),
            forall|x: Seq<char>| holds_view(out@, x) <==> holds_view(all.subrange(0, taken), x),
        decreases rest@.len(),
    {
        let v = rest.remove(0);
        assert(v == all[taken]);
        let ghost before = out@;
        if !contains_string(&out, &v) {
            out.push(v);
        }
        proof {
            let pre = all.subrange(0, taken);
            let post = all.subrange(0, taken + 1);
            assert(post =~= pre.push(all[taken]));
            assert forall|x: Seq<char>| holds_view(out@, x) <==> holds_view(post, x) by {
                if holds_view(post, x) {
                    let i = choose|i: int| 0 <= i < post.len() && post[i]@ == x;
                    if i < pre.len() {
                        assert(pre[i] == post[i]);
                        assert(holds_view(before, x));
                        let k = choose|k: int| 0 <= k < before.len() && before[k]@ == x;
                        assert(out@[k] == before[k]);
                    } else {
                        if holds_view(before, x) {
                            let k = choose|k: int| 0 <= k < before.len() && before[k]@ == x;
                            assert(out@[k] == before[k]);
                        } else {
                            assert(out@[out@.len() - 1] == all[taken]);
                        }
                    }
                }
                if holds_view(out@, x) {
                    let k = choose|k: int| 0 <= k < out@.len() && out@[k]@ == x;
                    if k < before.len() {
                        assert(out@[k] == before[k]);
                        assert(holds_view(before, x));
                        assert(holds_view(pre, x));
                        let i = choose|i: int| 0 <= i < pre.len() && pre[i]@ == x;
                        assert(post[i] == pre[i]);
                    } else {
                        assert(post[pre.len() as int] == all[taken]);
                    }
                }
            }
            taken = taken + 1;
        }
    }
    assert(all.subrange(0, taken) =~= all);
    out
}

/// The message of reading `NULL` where a value is required.
pub open spec fn unexpected_null_message() -> Seq<char> {
    "Unexpected null for non-null column"@
}

/// The versions read from the rows of their query: the text of each row; or,
/// where a row holds `NULL`, which the `NOT NULL` column never does, a
/// deserialization error.
pub fn version_rows(rows: Vec<Option<String>>) -> (r: QueryResult<Vec<String>>)
    ensures
        (forall|i: int| 0 <= i < rows@.len() ==> rows@[i] is Some) ==> (r matches Ok(v)
            && v@.len() == rows@.len()
            && forall|i: int| 0 <= i < rows@.len() ==> rows@[i] == Some(#[trigger] v@[i])),
        (exists|i: int| 0 <= i < rows@.len() && rows@[i] is None) ==> (r matches Err(Error(ErrorKind::DeserializationError(m), _))
            && m@ == unexpected_null_message()),
{
    let ghost all = rows@;
    let mut rest = rows;
    let mut out: Vec<String> = Vec::new();
    while rest.len() > 0
        invariant
            all == rows@,
            out@.len() + rest@.len() == all.len(),
            rest@ == all.subrange(out@.len() as int, all.len() as int),
            forall|i: int| 0 <= i < out@.len() ==> all[i] == Some(#[trigger] out@[i]),
        decreases rest@.len(),
    {
        let ghost k = out@.len() as int;
        let row = rest.remove(0);
        assert(row == all[k]);
        match row {
            Some(v) => out.push(v),
            None => {
                proof {
                    reveal_strlit("Unexpected null for non-null column");
                    assert(all[k] is None);
                    assert(!(forall|i: int| 0 <= i < all.len() ==> all[i] is Some));
                }
                return Err(Error(ErrorKind::DeserializationError("Unexpected null for non-null column".to_owned()), (None, None)));
            },
        }
    }
    assert forall|i: int| 0 <= i < all.len() implies all[i] is Some by {
        assert(all[i] == Some(out@[i]));
    }
    Ok(out)
}

/// The first row of a query's rows, or `NotFound` where there is none.
pub fn first_row<T>(rows: Vec<T>) -> (r: QueryResult<T>)
    ensures
        rows@.len() == 0 ==> r == Err::<T, Error>(Error(ErrorKind::NotFound, (None, None))),
        rows@.len() > 0 ==> r == Ok::<T, Error>(rows@[0]),
{
    let mut rows = rows;
    if rows.len() == 0 {
        Err(Error(ErrorKind::NotFound, (None, None)))
    } else {
        Ok(rows.swap_remove(0))
    }
}

/// The greatest version of the migrations that ran, from the rows of its
/// query: the one row's value, which is `None` where no migration ran; or
/// `NotFound` where the query gave no row.
pub fn latest_run_migration_version(rows: Vec<Option<String>>) -> (r: QueryResult<Option<String>>)
    ensures
        rows@.len() == 0 ==> r == Err::<Option<String>, Error>(Error(ErrorKind::NotFound, (None, None))),
        rows@.len() > 0 ==> r == Ok::<Option<String>, Error>(rows@[0]),
{
    first_row(rows)
}

/// The outcome of recording a migration as run: the statement's error, or
/// success whatever number of rows it reported.
pub fn insert_new_migration(outcome: QueryResult<usize>) -> (r: QueryResult<()>)
    ensures
        outcome matches Err(e) ==> r == Err::<(), Error>(e),
        outcome is Ok ==> r is Ok,
{
    match outcome {
        Err(e) => Err(e),
        Ok(_) => Ok(()),
    }
}

} // verus!
