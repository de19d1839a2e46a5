# diesel

A SQL query builder for SQLite, written in Verus. The library in `src/`
carries contracts that Verus proves:

- `query_builder`: the SQLite builder of SQL text (placeholders, `NULL` in
  inserts, contexts), the pass that walks query fragments (`AstPass`,
  `QueryFragment`), collected queries, changesets of update statements, and
  the decisions of a batch insert run as one insert per record.
- `expression`, `types`: columns, SQL literals, `=`, `IS NULL` and
  `IS NOT NULL` (only on nullable SQL types).
- `result`: error kinds, the `DatabaseErrorInformation` a backend reports,
  their equality, descriptions and display texts, and the conversions between
  them.
- `migration`: the migrations table, its queries, what is made of their rows,
  and the errors of migrations.
- `connection::sqlite`: what a SQLite connection decides from the status codes,
  extended result codes and messages that SQLite gives back (a unique or
  primary-key constraint becomes a unique violation), and C strings.

`app/` holds the calls into SQLite's C interface (`libsqlite3-sys`), the
`Migration` trait over a live connection, and the loop that runs a batch
insert inside a savepoint; what it makes of SQLite's answers, the library
decides.
