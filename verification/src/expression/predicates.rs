//! Predicates on expressions.

use vstd::prelude::*;
use super::{AppearsOnTable, Expression};
use crate::query_builder::{AstPass, QueryFragment};
use crate::result::QueryResult;
use crate::types::Bool;

verus! {

/// The predicate `expr IS NULL`.
pub struct IsNull<T> {
    pub expr: T,
}

impl<T> IsNull<T> {
    /// The predicate `expr IS NULL`.
    pub fn new(expr: T) -> (r: Self)
        ensures
            r.expr == expr,
    {
        IsNull { expr }
    }
}

impl<QS, T: AppearsOnTable<QS>> AppearsOnTable<QS> for IsNull<T> {}

impl<T> Expression for IsNull<T> {
    type SqlType = Bool;
}

impl<B, T: QueryFragment<B>> QueryFragment<B> for IsNull<T> {
    /// `expr IS NULL`.
    open spec fn fragment_sql(&self) -> Seq<char> {
        self.expr.fragment_sql() + " IS NULL"@
    }

    open spec fn fragment_uncacheable(&self) -> bool {
        self.expr.fragment_uncacheable()
    }

    open spec fn fragment_binds(&self) -> Seq<B> {
        self.expr.fragment_binds()
    }

    fn walk_ast<'b>(&'b self, pass: &mut AstPass<'b, B>) -> (r: QueryResult<()>) {
        self.expr.walk_ast(pass)?;
        pass.push_sql(" IS NULL");
        assert(pass.sql_view() =~= old(pass).sql_view() + (self.expr.fragment_sql() + " IS NULL"@));
        Ok(())
    }
}

/// The predicate `expr IS NOT NULL`.
pub struct IsNotNull<T> {
    pub expr: T,
}

impl<T> IsNotNull<T> {
    /// The predicate `expr IS NOT NULL`.
    pub fn new(expr: T) -> (r: Self)
        ensures
            r.expr == expr,
    {
        IsNotNull { expr }
    }
}

impl<QS, T: AppearsOnTable<QS>> AppearsOnTable<QS> for IsNotNull<T> {}

impl<T> Expression for IsNotNull<T> {
    type SqlType = Bool;
}

impl<B, T: QueryFragment<B>> QueryFragment<B> for IsNotNull<T> {
    /// `expr IS NOT NULL`.
    open spec fn fragment_sql(&self) -> Seq<char> {
        self.expr.fragment_sql() + " IS NOT NULL"@
    }

    open spec fn fragment_uncacheable(&self) -> bool {
        self.expr.fragment_uncacheable()
    }

    open spec fn fragment_binds(&self) -> Seq<B> {
        self.expr.fragment_binds()
    }

    fn walk_ast<'b>(&'b self, pass: &mut AstPass<'b, B>) -> (r: QueryResult<()>) {
        self.expr.walk_ast(pass)?;
        pass.push_sql(" IS NOT NULL");
        assert(pass.sql_view() =~= old(pass).sql_view() + (self.expr.fragment_sql() + " IS NOT NULL"@));
        Ok(())
    }
}

} // verus!
