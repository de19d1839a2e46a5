//! The SQL text builder of the SQLite backend.

use vstd::prelude::*;
use super::{BuildQueryResult, Context};

verus! {

/// The view of a query builder: the SQL text so far, and the stack of
/// contexts, its bottom first.
pub type QueryBuilderView = (Seq<char>, Seq<Context>);

/// What `push_sql` makes of a builder's view.
pub open spec fn push_sql_view(v: QueryBuilderView, sql: Seq<char>) -> QueryBuilderView {
    (v.0 + sql, v.1)
}

/// The placeholder that `push_bound_value` writes: `NULL` where the bottom
/// context is an insert and there is no value to bind, else `?`.
pub open spec fn bound_value_sql(contexts: Seq<Context>, bind_is_none: bool) -> Seq<char> {
    if contexts.len() > 0 && contexts[0] == Context::Insert && bind_is_none {
        "NULL"@
    } else {
        "?"@
    }
}

/// What `push_context` makes of a builder's view.
pub open spec fn push_context_view(v: QueryBuilderView, c: Context) -> QueryBuilderView {
    (v.0, v.1.push(c))
}

/// What `pop_context` makes of a builder's view: the top context goes, if any.
pub open spec fn pop_context_view(v: QueryBuilderView) -> QueryBuilderView {
    if v.1.len() > 0 {
        (v.0, v.1.drop_last())
    } else {
        v
    }
}

/// Builds the SQL text of a query for SQLite: the text so far, and the
/// stack of contexts, its bottom first.
pub struct SqliteQueryBuilder {
    pub sql: String,
    pub context_stack: Vec<Context>,
}

impl View for SqliteQueryBuilder {
    type V = QueryBuilderView;

    open spec fn view(&self) -> QueryBuilderView {
        (self.sql@, self.context_stack@)
    }
}

impl SqliteQueryBuilder {
    /// A builder with no SQL text and no context.
    pub fn new() -> (r: Self)
        ensures
            r@.0 == Seq::<char>::empty(),
            r@.1 == Seq::<Context>::empty(),
    {
        SqliteQueryBuilder { sql: String::new(), context_stack: Vec::new() }
    }

    /// Appends `sql` to the text.
    pub fn push_sql(&mut self, sql: &str)
        ensures
            final(self)@ == push_sql_view(old(self)@, sql@),
    {
        self.sql.append(sql);
    }

    /// Appends an identifier to the text, as it is; this never fails.
    pub fn push_identifier(&mut self, identifier: &str) -> (r: BuildQueryResult)
        ensures
            r is Ok,
            final(self)@ == push_sql_view(old(self)@, identifier@),
    {
        self.push_sql(identifier);
        Ok(())
    }

    /// Appends the placeholder of a bound value: `NULL` where the bottom
    /// context is an insert and there is no value, else `?`.
    pub fn push_bound_value(&mut self, bind: Option<Vec<u8>>)
        ensures
            final(self)@ == push_sql_view(old(self)@, bound_value_sql(old(self)@.1, bind is None)),
            bind is Some ==> final(self)@ == (old(self)@.0 + "?"@, old(self)@.1),
    {
        if self.context_stack.len() > 0 && self.context_stack[0] == Context::Insert && bind.is_none() {
            self.push_sql("NULL");
        } else {
            self.push_sql("?");
        }
    }

    /// Enters a context.
    pub fn push_context(&mut self, context: Context)
        ensures
            final(self)@ == push_context_view(old(self)@, context),
    {
        self.context_stack.push(context);
    }

    /// Gives up the builder for its SQL text.
    pub fn into_sql(self) -> (r: String)
        ensures
            r@ == self@.0,
    {
        self.sql
    }

    /// Leaves the innermost context, if there is one.
    pub fn pop_context(&mut self)
        ensures
            final(self)@ == pop_context_view(old(self)@),
    {
        let _ = self.context_stack.pop();
    }
}

/// Leaving a context just entered gives back the builder as it was.
pub proof fn law_pop_context_undoes_push_context(v: QueryBuilderView, c: Context)
    ensures
        pop_context_view(push_context_view(v, c)) == v,
{
    assert(v.1.push(c).drop_last() =~= v.1);
}

/// Pushing two pieces of SQL text is pushing their concatenation: the text
/// only grows, at its end.
pub proof fn law_push_sql_concatenates(v: QueryBuilderView, a: Seq<char>, b: Seq<char>)
    ensures
        push_sql_view(push_sql_view(v, a), b) == push_sql_view(v, a + b),
{
    assert(v.0 + a + b =~= v.0 + (a + b));
}

} // verus!

verus! {

/// A present value is always written as the placeholder `?`, whatever the
/// contexts; a missing value is written as `NULL` exactly when the bottom
/// context is an insert, and as `?` otherwise.
pub proof fn law_bound_value_placeholder(contexts: Seq<Context>)
    ensures
        bound_value_sql(contexts, false) == "?"@,
        bound_value_sql(contexts, true) == (if contexts.len() > 0 && contexts[0] == Context::Insert {
            "NULL"@
        } else {
            "?"@
        }),
{
}

/// Pushing a present value appends `?` to the text and leaves the contexts
/// as they are, whatever contexts were pushed before.
pub proof fn law_present_value_appends_placeholder(v: QueryBuilderView)
    ensures
        push_sql_view(v, bound_value_sql(v.1, false)) == (v.0 + "?"@, v.1),
{
}

/// Contexts pushed over the bottom one do not change how a missing value is
/// written: only the bottom context decides.
pub proof fn law_only_bottom_context_decides(v: QueryBuilderView, c: Context, bind_is_none: bool)
    requires
        v.1.len() > 0,
    ensures
        bound_value_sql(push_context_view(v, c).1, bind_is_none) == bound_value_sql(v.1, bind_is_none),
{
}

} // verus!
