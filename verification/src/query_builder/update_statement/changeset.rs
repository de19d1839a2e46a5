//! What an update statement sets.

use vstd::prelude::*;
use super::BatchChangeset;
use crate::expression::{AppearsOnTable, Column, Grouped, QuerySource};
use crate::query_builder::{AstPass, QueryFragment, QueryId};
use crate::result::QueryResult;

verus! {

/// Types which can be passed to `update.set`: they become the changeset of
/// an update statement.
pub trait AsChangeset: Sized {
    /// The table which `Self::Changeset` will be updating.
    type Target: QuerySource;

    /// The update statement this type represents.
    type Changeset;

    /// Whether `c` is the changeset that `self` becomes.
    spec fn is_changeset_of(self, c: Self::Changeset) -> bool;

    /// Converts `self` into the changeset of the update statement.
    fn as_changeset(self) -> (r: Self::Changeset)
        ensures
            self.is_changeset_of(r),
    ;
}

/// Tells single updates from batch updates.
pub trait AsChangesetImpl {
    type Impl;
}

/// The marker of an update of one row.
#[derive(Debug, Clone, Copy)]
pub struct SingleUpdate;

/// The marker of an update of several rows.
#[derive(Debug, Clone, Copy)]
pub struct BatchUpdate;

impl<T: AsChangeset> AsChangeset for Option<T> {
    type Target = T::Target;

    type Changeset = Option<T::Changeset>;

    /// `None` sets nothing; `Some(x)` sets what `x` sets.
    open spec fn is_changeset_of(self, c: Option<T::Changeset>) -> bool {
        match (self, c) {
            (Some(x), Some(y)) => x.is_changeset_of(y),
            (None, None) => true,
            _ => false,
        }
    }

    fn as_changeset(self) -> (r: Option<T::Changeset>) {
        match self {
            Some(x) => Some(x.as_changeset()),
            None => None,
        }
    }
}

impl<T> AsChangesetImpl for Option<T> where T: AsChangesetImpl<Impl = SingleUpdate> {
    type Impl = SingleUpdate;
}

impl<Left: Column, Right: AppearsOnTable<Left::Table>> AsChangeset for crate::expression::Eq<Left, Right> {
    type Target = Left::Table;

    type Changeset = Assign<Left, Right>;

    /// `left = right` assigns `right` to the column `left`.
    open spec fn is_changeset_of(self, c: Assign<Left, Right>) -> bool {
        c.column == self.left && c.expr == self.right
    }

    fn as_changeset(self) -> (r: Assign<Left, Right>) {
        Assign { column: self.left, expr: self.right }
    }
}

impl<Left: Column, Right: AppearsOnTable<Left::Table>> AsChangeset for Grouped<crate::expression::Eq<Left, Right>> {
    type Target = Left::Table;

    type Changeset = Assign<Left, Right>;

    /// The parentheses change nothing.
    open spec fn is_changeset_of(self, c: Assign<Left, Right>) -> bool {
        self.0.is_changeset_of(c)
    }

    fn as_changeset(self) -> (r: Assign<Left, Right>) {
        self.0.as_changeset()
    }
}

/// The assignment of an expression to a column.
#[derive(Debug, Clone, Copy)]
pub struct Assign<Col, Expr> {
    pub column: Col,
    pub expr: Expr,
}

impl<T, C: Column, U: QueryFragment<T>> QueryFragment<T> for Assign<C, U> {
    /// `name = expr`, the column by its bare name.
    open spec fn fragment_sql(&self) -> Seq<char> {
        self.column.column_name() + " = "@ + self.expr.fragment_sql()
    }

    open spec fn fragment_uncacheable(&self) -> bool {
        self.expr.fragment_uncacheable()
    }

    open spec fn fragment_binds(&self) -> Seq<T> {
        self.expr.fragment_binds()
    }

    fn walk_ast<'b>(&'b self, pass: &mut AstPass<'b, T>) -> (r: QueryResult<()>) {
        pass.push_identifier(self.column.name())?;
        pass.push_sql(" = ");
        let r = self.expr.walk_ast(pass);
        assert(pass.sql_view() =~= old(pass).sql_view() + (self.column.column_name() + " = "@
            + self.expr.fragment_sql()));
        r
    }
}

/// An assignment is identified by its column and expression, and has a static
/// query id when both do.
impl<C: QueryId, U: QueryId> QueryId for Assign<C, U> {
    type QueryId = Assign<C::QueryId, U::QueryId>;

    const HAS_STATIC_QUERY_ID: bool = C::HAS_STATIC_QUERY_ID && U::HAS_STATIC_QUERY_ID;
}

impl<C, U> AsChangesetImpl for Assign<C, U> {
    type Impl = SingleUpdate;
}

impl<C: Column, U> Assign<C, U> {
    /// The SQL text of the assignment in a batch update: `column = r.name`,
    /// the column as it writes itself, `r` the row of new values.
    pub open spec fn assign_list_sql<T>(&self) -> Seq<char> where C: QueryFragment<T> {
        self.column.fragment_sql() + " = "@ + "r"@ + "."@ + self.column.column_name()
    }

    /// Writes the new value of a batch update.
    pub fn walk_values<'b, T>(&'b self, pass: &mut AstPass<'b, T>) -> (r: QueryResult<()>)
        where U: QueryFragment<T>
        ensures
            r is Ok,
            final(pass).sql_view() == old(pass).sql_view() + self.expr.fragment_sql(),
            final(pass).contexts() == old(pass).contexts(),
            final(pass).cacheable() == (old(pass).cacheable() && !self.expr.fragment_uncacheable()),
            final(pass).binds() == old(pass).binds() + self.expr.fragment_binds(),
    {
        self.expr.walk_ast(pass)
    }

    /// Writes the column's bare name into the column list of a batch update.
    pub fn walk_column_list<'b, T>(&'b self, pass: &mut AstPass<'b, T>) -> (r: QueryResult<()>)
        ensures
            r is Ok,
            final(pass).sql_view() == old(pass).sql_view() + self.column.column_name(),
            final(pass).contexts() == old(pass).contexts(),
            final(pass).cacheable() == old(pass).cacheable(),
            final(pass).binds() == old(pass).binds(),
    {
        pass.push_identifier(self.column.name())
    }

    /// Writes the assignment of a batch update: `column = r.name`.
    pub fn walk_assign_list<'b, T>(&'b self, pass: &mut AstPass<'b, T>) -> (r: QueryResult<()>)
        where C: QueryFragment<T>
        ensures
            r is Ok,
            final(pass).sql_view() == old(pass).sql_view() + self.assign_list_sql(),
            final(pass).contexts() == old(pass).contexts(),
            final(pass).cacheable() == (old(pass).cacheable() && !self.column.fragment_uncacheable()),
            final(pass).binds() == old(pass).binds() + self.column.fragment_binds(),
    {
        self.column.walk_ast(pass)?;
        pass.push_sql(" = ");
        pass.push_identifier("r")?;
        pass.push_sql(".");
        pass.push_identifier(self.column.name())?;
        assert(pass.sql_view() =~= old(pass).sql_view() + self.assign_list_sql());
        Ok(())
    }
}

impl<T: AsChangeset> AsChangeset for Vec<T> {
    type Target = T::Target;

    type Changeset = BatchChangeset<Vec<T::Changeset>>;

    /// A batch of the changesets of the elements, in order.
    open spec fn is_changeset_of(self, c: BatchChangeset<Vec<T::Changeset>>) -> bool {
        &&& c.changesets@.len() == self@.len()
        &&& forall|i: int| 0 <= i < self@.len() ==> #[trigger] self@[i].is_changeset_of(c.changesets@[i])
    }

    fn as_changeset(self) -> (r: BatchChangeset<Vec<T::Changeset>>) {
        let ghost items = self@;
        let mut rest = self;
        let mut out: Vec<T::Changeset> = Vec::new();
        while rest.len() > 0
            invariant
                out@.len() + rest@.len() == items.len(),
                rest@ == items.subrange(out@.len() as int, items.len() as int),
                forall|i: int| 0 <= i < out@.len() ==> #[trigger] items[i].is_changeset_of(out@[i]),
            decreases rest@.len(),
        {
            let x = rest.remove(0);
            let c = x.as_changeset();
            out.push(c);
        }
        BatchChangeset::new(out)
    }
}

impl<T> AsChangesetImpl for BatchChangeset<T> {
    type Impl = BatchUpdate;
}

} // verus!
