//! SQL types, as markers of the type of an expression.

use vstd::prelude::*;

verus! {

/// A type that SQL knows natively.
pub trait NativeSqlType {}

/// The SQL type `INTEGER`.
pub struct Integer;

/// The SQL type `TEXT`.
pub struct Text;

/// The SQL type `VARCHAR`.
pub struct VarChar;

/// The SQL type `BOOLEAN`.
pub struct Bool;

/// The SQL type of a query whose rows are of no known type.
pub struct Untyped;

/// A SQL type whose values may also be `NULL`.
pub struct Nullable<ST>(pub ST);

impl NativeSqlType for Integer {}

impl NativeSqlType for Text {}

impl NativeSqlType for VarChar {}

impl NativeSqlType for Bool {}

impl<ST: NativeSqlType> NativeSqlType for Nullable<ST> {}

} // verus!
