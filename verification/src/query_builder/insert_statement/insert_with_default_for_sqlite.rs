//! SQLite has no `DEFAULT` keyword in `VALUES`, so a batch insert runs as one
//! insert per record inside a transaction. This module holds the decisions
//! of that loop and the text that shows such a batch.

use vstd::prelude::*;
use crate::result::{Error, QueryResult};

verus! {

/// The sum of a sequence of row counts.
pub open spec fn sum_counts(s: Seq<usize>) -> int
    decreases s.len(),
{
    if s.len() == 0 {
        0
    } else {
        sum_counts(s.drop_last()) + s.last()
    }
}

/// What the connection is to do next in a batch insert.
pub enum BatchInsertAction {
    /// Execute the insert of the record at this index, and report its outcome.
    ExecuteRecord(usize),
    /// Commit the transaction: every record was inserted; the rows inserted.
    Commit(usize),
    /// Roll the transaction back: an insert failed with this error.
    Rollback(Error),
}

/// The progress of a batch insert of `records` records: how many were
/// inserted so far, and the rows that each insert reported.
pub struct BatchInsertExecution {
    records: usize,
    executed: usize,
    total: usize,
    counts: Ghost<Seq<usize>>,
}

impl BatchInsertExecution {
    /// The number of records of the batch.
    pub closed spec fn records(&self) -> nat {
        self.records as nat
    }

    /// The rows that the insert of each record executed so far reported.
    pub closed spec fn counts(&self) -> Seq<usize> {
        self.counts@
    }

    /// The rows inserted so far.
    pub closed spec fn total(&self) -> nat {
        self.total as nat
    }

    /// The progress is consistent: no more records executed than the batch
    /// holds, and the total is the sum of the counts.
    #[verifier::type_invariant]
    closed spec fn wf(&self) -> bool {
        &&& self.executed == self.counts@.len()
        &&& self.executed <= self.records
        &&& self.total == sum_counts(self.counts@)
    }

    /// The number of records of the batch.
    pub fn record_count(&self) -> (r: usize)
        ensures
            r == self.records(),
    {
        self.records
    }

    /// The number of records executed so far.
    pub fn executed_count(&self) -> (r: usize)
        ensures
            r == self.counts().len(),
    {
        proof {
            use_type_invariant(self);
        }
        self.executed
    }

    /// The rows inserted so far.
    pub fn inserted_rows(&self) -> (r: usize)
        ensures
            r == self.total(),
    {
        self.total
    }

    /// Starts a batch of `records` records: the first record is to be
    /// executed, or, for an empty batch, the transaction committed with no
    /// rows.
    pub fn new(records: usize) -> (r: (Self, BatchInsertAction))
        ensures
            r.0.records() == records,
            r.0.counts() == Seq::<usize>::empty(),
            r.0.total() == 0,
            records == 0 ==> r.1 == BatchInsertAction::Commit(0),
            records > 0 ==> r.1 == BatchInsertAction::ExecuteRecord(0),
    {
        let s = BatchInsertExecution { records, executed: 0, total: 0, counts: Ghost(Seq::empty()) };
        if records == 0 {
            (s, BatchInsertAction::Commit(0))
        } else {
            (s, BatchInsertAction::ExecuteRecord(0))
        }
    }

    /// Takes the outcome of the insert of the next record. An error ends the
    /// batch: the transaction is rolled back with that error. Otherwise the
    /// rows are added up, and the next record is to be executed, or, after
    /// the last one, the transaction committed with the rows of all inserts.
    pub fn step(&mut self, outcome: QueryResult<usize>) -> (action: BatchInsertAction)
        requires
            old(self).counts().len() < old(self).records(),
            outcome matches Ok(n) ==> old(self).total() + n <= usize::MAX,
        ensures
            final(self).records() == old(self).records(),
            final(self).total() == sum_counts(final(self).counts()),
            action matches BatchInsertAction::Commit(t) ==> t == sum_counts(final(self).counts())
                && final(self).counts().len() == final(self).records(),
            match outcome {
                Ok(n) => {
                    &&& final(self).counts() == old(self).counts().push(n)
                    &&& final(self).total() == old(self).total() + n
                    &&& if final(self).counts().len() < final(self).records() {
                        action == BatchInsertAction::ExecuteRecord(final(self).counts().len() as usize)
                    } else {
                        action == BatchInsertAction::Commit(final(self).total() as usize)
                    }
                },
                Err(e) => {
                    &&& final(self).counts() == old(self).counts()
                    &&& final(self).total() == old(self).total()
                    &&& action == BatchInsertAction::Rollback(e)
                },
            },
    {
        proof {
            use_type_invariant(&*self);
        }
        match outcome {
            Ok(n) => {
                let ghost old_counts = self.counts@;
                let ghost new_counts = old_counts.push(n);
                assert(new_counts.drop_last() =~= old_counts);
                *self = BatchInsertExecution {
                    records: self.records,
                    executed: self.executed + 1,
                    total: self.total + n,
                    counts: Ghost(new_counts),
                };
                if self.executed < self.records {
                    BatchInsertAction::ExecuteRecord(self.executed)
                } else {
                    BatchInsertAction::Commit(self.total)
                }
            },
            Err(e) => BatchInsertAction::Rollback(e),
        }
    }
}

/// The text of the statements, each on a line of its own.
pub open spec fn lines_view(statements: Seq<String>) -> Seq<char>
    decreases statements.len(),
{
    if statements.len() == 0 {
        Seq::empty()
    } else {
        lines_view(statements.drop_last()) + statements.last()@ + "\n"@
    }
}

/// Shows a batch insert as the statements it runs: `BEGIN;`, each insert on
/// a line of its own, `COMMIT;`.
pub fn batch_insert_display(statements: &Vec<String>) -> (r: String)
    ensures
        r@ == "BEGIN;\n"@ + lines_view(statements@) + "COMMIT;\n"@,
{
    let mut out = String::new();
    out.append("BEGIN;\n");
    let mut i: usize = 0;
    while i < statements.len()
        invariant
            i <= statements@.len(),
            out@ == "BEGIN;\n"@ + lines_view(statements@.subrange(0, i as int)),
        decreases statements@.len() - i,
    {
        out.append(statements[i].as_str());
        out.append("\n");
        assert(statements@.subrange(0, i + 1).drop_last() =~= statements@.subrange(0, i as int));
        assert(out@ =~= "BEGIN;\n"@ + lines_view(statements@.subrange(0, i + 1)));
        i = i + 1;
    }
    assert(statements@.subrange(0, statements@.len() as int) =~= statements@);
    out.append("COMMIT;\n");
    out
}

/// The views of a sequence of strings.
pub open spec fn strings_view(s: Seq<String>) -> Seq<Seq<char>> {
    s.map_values(|x: String| x@)
}

/// The statements that the debug output of a batch insert lists: `BEGIN`,
/// each insert, `COMMIT`.
pub fn batch_insert_debug_sql(statements: Vec<String>) -> (r: Vec<String>)
    ensures
        strings_view(r@) == seq!["BEGIN"@] + strings_view(statements@) + seq!["COMMIT"@],
{
    let mut out: Vec<String> = Vec::new();
    out.push("BEGIN".to_owned());
    let ghost stmts = statements@;
    let mut rest = statements;
    while rest.len() > 0
        invariant
            out@.len() >= 1,
            out@.len() - 1 + rest@.len() == stmts.len(),
            strings_view(out@) == seq!["BEGIN"@] + strings_view(stmts.subrange(0, out@.len() - 1)),
            rest@ == stmts.subrange(out@.len() - 1, stmts.len() as int),
        decreases rest@.len(),
    {
        let ghost k = out@.len() - 1;
        let s = rest.remove(0);
        assert(s == stmts[k]);
        let ghost before = out@;
        out.push(s);
        assert(stmts.subrange(0, k + 1) =~= stmts.subrange(0, k).push(stmts[k]));
        assert(strings_view(stmts.subrange(0, k + 1)) =~= strings_view(stmts.subrange(0, k)).push(s@));
        assert(strings_view(out@) =~= strings_view(before).push(s@));
        assert(strings_view(out@) =~= seq!["BEGIN"@] + strings_view(stmts.subrange(0, out@.len() - 1)));
    }
    assert(stmts.subrange(0, stmts.len() as int) =~= stmts);
    out.push("COMMIT".to_owned());
    assert(strings_view(out@) =~= seq!["BEGIN"@] + strings_view(stmts) + seq!["COMMIT"@]);
    out
}

} // verus!
