//! The pass that walks a query's fragments and writes their SQL.

use vstd::prelude::*;
use super::{Context, SqliteQueryBuilder};
use crate::result::{Error, QueryResult};

verus! {

/// The dereferenced values behind a sequence of references.
pub open spec fn deref_all<T>(s: Seq<&T>) -> Seq<T> {
    s.map_values(|r: &T| *r)
}

/// A walk over the fragments of a query: the SQL text written so far,
/// whether the query is still safe to cache as a prepared statement, and the
/// bind data pushed so far, by reference.
pub struct AstPass<'a, T> {
    query_builder: SqliteQueryBuilder,
    safe_to_cache_prepared: bool,
    bind_data: Vec<&'a T>,
}

impl<'a, T> AstPass<'a, T> {
    /// The SQL text written so far.
    pub closed spec fn sql_view(&self) -> Seq<char> {
        self.query_builder@.0
    }

    /// The contexts of the query builder, bottom first.
    pub closed spec fn contexts(&self) -> Seq<Context> {
        self.query_builder@.1
    }

    /// Whether the query is still safe to cache as a prepared statement.
    pub closed spec fn cacheable(&self) -> bool {
        self.safe_to_cache_prepared
    }

    /// The bind data pushed so far.
    pub closed spec fn binds(&self) -> Seq<T> {
        deref_all(self.bind_data@)
    }

    /// A pass with no SQL text, no context and no bind data, safe to cache.
    pub fn new() -> (r: Self)
        ensures
            r.sql_view() == Seq::<char>::empty(),
            r.contexts() == Seq::<Context>::empty(),
            r.cacheable(),
            r.binds() == Seq::<T>::empty(),
    {
        let r = AstPass {
            query_builder: SqliteQueryBuilder::new(),
            safe_to_cache_prepared: true,
            bind_data: Vec::new(),
        };
        assert(r.binds() =~= Seq::<T>::empty());
        r
    }

    /// Marks the query as unsafe to cache as a prepared statement.
    pub fn unsafe_to_cache_prepared(&mut self)
        ensures
            final(self).sql_view() == old(self).sql_view(),
            final(self).contexts() == old(self).contexts(),
            !final(self).cacheable(),
            final(self).binds() == old(self).binds(),
    {
        self.safe_to_cache_prepared = false;
    }

    /// Appends SQL text.
    pub fn push_sql(&mut self, sql: &str)
        ensures
            final(self).sql_view() == old(self).sql_view() + sql@,
            final(self).contexts() == old(self).contexts(),
            final(self).cacheable() == old(self).cacheable(),
            final(self).binds() == old(self).binds(),
    {
        self.query_builder.push_sql(sql);
    }

    /// Appends an identifier.
    pub fn push_identifier(&mut self, identifier: &str) -> (r: QueryResult<()>)
        ensures
            r is Ok,
            final(self).sql_view() == old(self).sql_view() + identifier@,
            final(self).contexts() == old(self).contexts(),
            final(self).cacheable() == old(self).cacheable(),
            final(self).binds() == old(self).binds(),
    {
        match self.query_builder.push_identifier(identifier) {
            Ok(()) => Ok(()),
            Err(e) => Err(Error::from(e)),
        }
    }

    /// Pushes the bind data that a collected query carries.
    pub fn push_bind_collector_data(&mut self, data: &'a T) -> (r: QueryResult<()>)
        ensures
            r is Ok,
            final(self).sql_view() == old(self).sql_view(),
            final(self).contexts() == old(self).contexts(),
            final(self).cacheable() == old(self).cacheable(),
            final(self).binds() == old(self).binds().push(*data),
    {
        self.bind_data.push(data);
        assert(self.binds() =~= old(self).binds().push(*data));
        Ok(())
    }

    /// Gives up the pass: its SQL text, whether it is safe to cache, and
    /// its bind data.
    pub fn finish(self) -> (r: (String, bool, Vec<&'a T>))
        ensures
            r.0@ == self.sql_view(),
            r.1 == self.cacheable(),
            deref_all(r.2@) == self.binds(),
    {
        (self.query_builder.into_sql(), self.safe_to_cache_prepared, self.bind_data)
    }
}

/// A piece of a query that can write itself into a pass.
pub trait QueryFragment<T> {
    /// The SQL text this fragment writes.
    spec fn fragment_sql(&self) -> Seq<char>;

    /// Whether this fragment makes the query unsafe to cache.
    spec fn fragment_uncacheable(&self) -> bool;

    /// The bind data this fragment pushes.
    spec fn fragment_binds(&self) -> Seq<T>;

    /// Writes this fragment into the pass.
    fn walk_ast<'b>(&'b self, pass: &mut AstPass<'b, T>) -> (r: QueryResult<()>)
        ensures
            r is Ok,
            final(pass).sql_view() == old(pass).sql_view() + self.fragment_sql(),
            final(pass).contexts() == old(pass).contexts(),
            final(pass).cacheable() == (old(pass).cacheable() && !self.fragment_uncacheable()),
            final(pass).binds() == old(pass).binds() + self.fragment_binds(),
    ;
}

} // verus!
