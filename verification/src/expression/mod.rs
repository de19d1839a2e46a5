//! Expressions: columns, SQL literals, and the operators changesets are made of.

use vstd::prelude::*;
use crate::query_builder::{AstPass, QueryFragment, QueryId};
use crate::result::QueryResult;
use core::marker::PhantomData;

pub mod expression_methods;
pub mod predicates;

verus! {

/// An expression of SQL, of the SQL type `SqlType`.
pub trait Expression {
    type SqlType;
}

/// A source of rows: a table.
pub trait QuerySource {}

/// An expression that can stand in a query on `QS`: it names no column of
/// another table.
pub trait AppearsOnTable<QS> {}

impl<Tab, ST> Expression for TableColumn<Tab, ST> {
    type SqlType = ST;
}

/// A column of a table, known by its name.
pub trait Column {
    /// The table the column belongs to.
    type Table: QuerySource;

    /// The name of the column.
    spec fn column_name(&self) -> Seq<char>;

    /// The name of the column.
    fn name(&self) -> (r: &str)
        ensures
            r@ == self.column_name(),
    ;
}

/// A column of the table `Tab`, of the SQL type `ST`, given by the name of
/// its table and its own name.
pub struct TableColumn<Tab, ST> {
    table: String,
    name: String,
    table_type: PhantomData<Tab>,
    sql_type: PhantomData<ST>,
}

impl<Tab, ST> TableColumn<Tab, ST> {
    /// The name of the column's table.
    pub closed spec fn table_view(&self) -> Seq<char> {
        self.table@
    }

    /// The name of the column.
    pub closed spec fn name_view(&self) -> Seq<char> {
        self.name@
    }

    /// The SQL text of the column: `table.name`.
    pub open spec fn qualified_sql(&self) -> Seq<char> {
        self.table_view() + "."@ + self.name_view()
    }

    /// The column `name` of the table `table`.
    pub fn new(table: String, name: String) -> (r: Self)
        ensures
            r.table_view() == table@,
            r.name_view() == name@,
    {
        TableColumn { table, name, table_type: PhantomData, sql_type: PhantomData }
    }

    /// The name of the column's table.
    pub fn table(&self) -> (r: &str)
        ensures
            r@ == self.table_view(),
    {
        self.table.as_str()
    }
}

impl<Tab: QuerySource, ST> Column for TableColumn<Tab, ST> {
    type Table = Tab;

    open spec fn column_name(&self) -> Seq<char> {
        self.name_view()
    }

    fn name(&self) -> (r: &str) {
        self.name.as_str()
    }
}

impl<Tab, ST> AppearsOnTable<Tab> for TableColumn<Tab, ST> {}

/// A column's SQL text is fixed by its type.
impl<Tab, ST> QueryId for TableColumn<Tab, ST> {
    type QueryId = TableColumn<Tab, ST>;

    const HAS_STATIC_QUERY_ID: bool = true;
}

impl<T, Tab, ST> QueryFragment<T> for TableColumn<Tab, ST> {
    /// A column writes itself qualified by its table: `table.name`.
    open spec fn fragment_sql(&self) -> Seq<char> {
        self.qualified_sql()
    }

    open spec fn fragment_uncacheable(&self) -> bool {
        false
    }

    open spec fn fragment_binds(&self) -> Seq<T> {
        Seq::empty()
    }

    fn walk_ast<'b>(&'b self, pass: &mut AstPass<'b, T>) -> (r: QueryResult<()>) {
        pass.push_identifier(self.table.as_str())?;
        pass.push_sql(".");
        pass.push_identifier(self.name.as_str())?;
        assert(pass.sql_view() =~= old(pass).sql_view() + self.qualified_sql());
        assert(pass.binds() =~= old(pass).binds() + Seq::<T>::empty());
        Ok(())
    }
}

/// A piece of SQL text, written as it is.
pub struct SqlLiteral {
    sql: String,
}

impl SqlLiteral {
    /// The SQL text.
    pub closed spec fn sql_view(&self) -> Seq<char> {
        self.sql@
    }

    /// The literal of the given text.
    pub fn new(sql: String) -> (r: Self)
        ensures
            r.sql_view() == sql@,
    {
        SqlLiteral { sql }
    }
}

impl<QS> AppearsOnTable<QS> for SqlLiteral {}

/// A literal's SQL text is not fixed by its type.
impl QueryId for SqlLiteral {
    type QueryId = ();

    const HAS_STATIC_QUERY_ID: bool = false;
}

impl<T> QueryFragment<T> for SqlLiteral {
    open spec fn fragment_sql(&self) -> Seq<char> {
        self.sql_view()
    }

    open spec fn fragment_uncacheable(&self) -> bool {
        false
    }

    open spec fn fragment_binds(&self) -> Seq<T> {
        Seq::empty()
    }

    fn walk_ast<'b>(&'b self, pass: &mut AstPass<'b, T>) -> (r: QueryResult<()>) {
        pass.push_sql(self.sql.as_str());
        assert(pass.binds() =~= old(pass).binds() + Seq::<T>::empty());
        Ok(())
    }
}

/// The expression `left = right`.
pub struct Eq<L, R> {
    pub left: L,
    pub right: R,
}

impl<L, R> Eq<L, R> {
    /// The expression `left = right`.
    pub fn new(left: L, right: R) -> (r: Self)
        ensures
            r.left == left,
            r.right == right,
    {
        Eq { left, right }
    }
}

/// An expression in parentheses.
pub struct Grouped<T>(pub T);

} // verus!
