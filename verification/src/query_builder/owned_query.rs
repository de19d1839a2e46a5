//! A query that owns its SQL text and binds.

use vstd::prelude::*;
use super::{AstPass, QueryFragment};
use crate::result::QueryResult;

verus! {

/// A query held as its SQL text, whether it is safe to cache as a prepared
/// statement, and its binds, which the walk does not push.
#[allow(dead_code)]
pub(crate) struct OwnedQuery<T> {
    sql: String,
    safe_to_cache_prepared: bool,
    binds: Vec<T>,
}

impl<B, T> QueryFragment<B> for OwnedQuery<T> {
    /// The query writes its text as it is.
    closed spec fn fragment_sql(&self) -> Seq<char> {
        self.sql@
    }

    /// The query makes the walk unsafe to cache exactly when it is itself.
    closed spec fn fragment_uncacheable(&self) -> bool {
        !self.safe_to_cache_prepared
    }

    /// The query pushes no bind data.
    closed spec fn fragment_binds(&self) -> Seq<B> {
        Seq::empty()
    }

    fn walk_ast<'b>(&'b self, pass: &mut AstPass<'b, B>) -> (r: QueryResult<()>) {
        if !self.safe_to_cache_prepared {
            pass.unsafe_to_cache_prepared();
        }
        pass.push_sql(self.sql.as_str());
        assert(pass.binds() =~= old(pass).binds() + Seq::<B>::empty());
        Ok(())
    }
}

} // verus!
