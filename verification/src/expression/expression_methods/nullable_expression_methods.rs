//! Methods that only expressions of a nullable SQL type have.

use vstd::prelude::*;
use crate::expression::Expression;
use crate::expression::predicates::{IsNotNull, IsNull};
use crate::types::{NativeSqlType, Nullable};

verus! {

/// `IS NULL` and `IS NOT NULL`, on expressions whose SQL type is nullable
/// only: on any other expression these methods do not exist.
pub trait NullableExpressionMethods<ST>: Expression + Sized {
    /// The predicate that this expression is `NULL`.
    fn is_null(self) -> (r: IsNull<Self>)
        ensures
            r.expr == self,
    {
        IsNull::new(self)
    }

    /// The predicate that this expression is not `NULL`.
    fn is_not_null(self) -> (r: IsNotNull<Self>)
        ensures
            r.expr == self,
    {
        IsNotNull::new(self)
    }
}

impl<ST, T> NullableExpressionMethods<ST> for T where
    ST: NativeSqlType,
    T: Expression<SqlType = Nullable<ST>>,
 {

}

} // verus!
