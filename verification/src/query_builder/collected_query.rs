//! Queries whose SQL text and bind data were collected beforehand.

use vstd::prelude::*;
use super::{AstPass, Query, QueryFragment, QueryId};
use crate::types::Untyped;
use crate::result::QueryResult;

verus! {

/// A query held as its SQL text, whether it is safe to cache as a prepared
/// statement, and the bind data it carries.
pub struct CollectedQuery<T> {
    sql: String,
    safe_to_cache_prepared: bool,
    movable_bind_collector: T,
}

impl<T> CollectedQuery<T> {
    /// The SQL text of the query.
    pub closed spec fn sql_view(&self) -> Seq<char> {
        self.sql@
    }

    /// Whether the query is safe to cache as a prepared statement.
    pub closed spec fn safe_to_cache(&self) -> bool {
        self.safe_to_cache_prepared
    }

    /// The bind data the query carries.
    pub closed spec fn bind_data(&self) -> T {
        self.movable_bind_collector
    }

    /// A query of the given text, cache flag and bind data.
    pub fn new(sql: String, safe_to_cache_prepared: bool, movable_bind_collector: T) -> (r: Self)
        ensures
            r.sql_view() == sql@,
            r.safe_to_cache() == safe_to_cache_prepared,
            r.bind_data() == movable_bind_collector,
    {
        Self { sql, safe_to_cache_prepared, movable_bind_collector }
    }
}

impl<T> QueryFragment<T> for CollectedQuery<T> {
    /// The query writes its text as it is.
    open spec fn fragment_sql(&self) -> Seq<char> {
        self.sql_view()
    }

    /// The query makes the walk unsafe to cache exactly when it is itself.
    open spec fn fragment_uncacheable(&self) -> bool {
        !self.safe_to_cache()
    }

    /// The query pushes its bind data once.
    open spec fn fragment_binds(&self) -> Seq<T> {
        seq![self.bind_data()]
    }

    fn walk_ast<'b>(&'b self, pass: &mut AstPass<'b, T>) -> (r: QueryResult<()>) {
        if !self.safe_to_cache_prepared {
            pass.unsafe_to_cache_prepared();
        }
        pass.push_sql(self.sql.as_str());
        pass.push_bind_collector_data(&self.movable_bind_collector)
    }
}

/// The SQL text of a collected query is not fixed by its type.
impl<T> QueryId for CollectedQuery<T> {
    type QueryId = ();

    const HAS_STATIC_QUERY_ID: bool = false;
}

/// The type of the rows of a collected query is not known.
impl<T> Query for CollectedQuery<T> {
    type SqlType = Untyped;
}

/// A query to load rows, held as its SQL text, whether it is safe to cache as
/// a prepared statement, and the bind data it carries.
pub struct CollectedLoadQuery<T> {
    sql: String,
    safe_to_cache_prepared: bool,
    movable_bind_collector: T,
}

impl<T> CollectedLoadQuery<T> {
    /// The SQL text of the query.
    pub closed spec fn sql_view(&self) -> Seq<char> {
        self.sql@
    }

    /// Whether the query is safe to cache as a prepared statement.
    pub closed spec fn safe_to_cache(&self) -> bool {
        self.safe_to_cache_prepared
    }

    /// The bind data the query carries.
    pub closed spec fn bind_data(&self) -> T {
        self.movable_bind_collector
    }

    /// A query of the given text, cache flag and bind data.
    pub fn new(sql: String, safe_to_cache_prepared: bool, movable_bind_collector: T) -> (r: Self)
        ensures
            r.sql_view() == sql@,
            r.safe_to_cache() == safe_to_cache_prepared,
            r.bind_data() == movable_bind_collector,
    {
        Self { sql, safe_to_cache_prepared, movable_bind_collector }
    }
}

impl<T> QueryFragment<T> for CollectedLoadQuery<T> {
    /// The query writes its text as it is.
    open spec fn fragment_sql(&self) -> Seq<char> {
        self.sql_view()
    }

    /// The query makes the walk unsafe to cache exactly when it is itself.
    open spec fn fragment_uncacheable(&self) -> bool {
        !self.safe_to_cache()
    }

    /// The query pushes its bind data once.
    open spec fn fragment_binds(&self) -> Seq<T> {
        seq![self.bind_data()]
    }

    fn walk_ast<'b>(&'b self, pass: &mut AstPass<'b, T>) -> (r: QueryResult<()>) {
        if !self.safe_to_cache_prepared {
            pass.unsafe_to_cache_prepared();
        }
        pass.push_sql(self.sql.as_str());
        pass.push_bind_collector_data(&self.movable_bind_collector)
    }
}

/// The SQL text of a collected query is not fixed by its type.
impl<T> QueryId for CollectedLoadQuery<T> {
    type QueryId = ();

    const HAS_STATIC_QUERY_ID: bool = false;
}

/// The type of the rows of a collected query is not known.
impl<T> Query for CollectedLoadQuery<T> {
    type SqlType = Untyped;
}

/// Neither kind of collected query has a static query id: their SQL text is
/// not fixed by their type.
pub proof fn law_collected_queries_have_no_static_query_id<T>()
    ensures
        !<CollectedQuery<T> as QueryId>::HAS_STATIC_QUERY_ID,
        !<CollectedLoadQuery<T> as QueryId>::HAS_STATIC_QUERY_ID,
{
}

} // verus!

verus! {

/// Walking a collected query writes exactly the text it was made with, marks
/// the walk unsafe to cache exactly when it was made unsafe to cache (a query
/// made safe to cache leaves the walk's flag as it was), and pushes exactly
/// the bind data it was made with.
pub proof fn law_collected_query_walk_replays<T>(q: CollectedQuery<T>, was_cacheable: bool)
    ensures
        q.fragment_sql() == q.sql_view(),
        q.safe_to_cache() ==> ((was_cacheable && !q.fragment_uncacheable()) == was_cacheable),
        !q.safe_to_cache() ==> !(was_cacheable && !q.fragment_uncacheable()),
        (was_cacheable && !q.fragment_uncacheable()) == (was_cacheable && q.safe_to_cache()),
        q.fragment_binds().len() == 1,
        q.fragment_binds()[0] == q.bind_data(),
{
}

/// Walking a collected load query writes exactly the text it was made with,
/// marks the walk unsafe to cache exactly when it was made unsafe to cache (a
/// query made safe to cache leaves the walk's flag as it was), and pushes
/// exactly the bind data it was made with.
pub proof fn law_collected_load_query_walk_replays<T>(q: CollectedLoadQuery<T>, was_cacheable: bool)
    ensures
        q.fragment_sql() == q.sql_view(),
        q.safe_to_cache() ==> ((was_cacheable && !q.fragment_uncacheable()) == was_cacheable),
        !q.safe_to_cache() ==> !(was_cacheable && !q.fragment_uncacheable()),
        (was_cacheable && !q.fragment_uncacheable()) == (was_cacheable && q.safe_to_cache()),
        q.fragment_binds().len() == 1,
        q.fragment_binds()[0] == q.bind_data(),
{
}

} // verus!
