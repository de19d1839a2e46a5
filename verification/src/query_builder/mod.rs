//! Building SQL text.

use vstd::prelude::*;
use crate::result::Error;

pub mod ast_pass;
pub mod collected_query;
mod owned_query;
pub mod insert_statement;
pub mod sqlite;
pub mod update_statement;
pub use self::ast_pass::{AstPass, QueryFragment};
pub use self::collected_query::{CollectedLoadQuery, CollectedQuery};
pub use self::sqlite::SqliteQueryBuilder;

verus! {

/// The kinds of error that building a query can end in.
#[allow(non_camel_case_types)]
#[derive(Debug)]
pub enum BuildQueryErrorKind {
    /// A plain message.
    Msg(String),
    /// A query error that occurred while building.
    QueryError(Box<Error>),
    /// Match against `_` instead, more variants may be added.
    __Nonexhaustive,
}

impl BuildQueryErrorKind {
    /// The description of the error.
    pub open spec fn description_view(self) -> Seq<char> {
        match self {
            BuildQueryErrorKind::Msg(s) => s@,
            BuildQueryErrorKind::QueryError(_) => "Query Error"@,
            BuildQueryErrorKind::__Nonexhaustive => "__Nonexhaustive"@,
        }
    }

    /// The description of the error.
    pub fn description(&self) -> (r: &str)
        ensures
            r@ == self.description_view(),
    {
        match self {
            BuildQueryErrorKind::Msg(s) => s.as_str(),
            BuildQueryErrorKind::QueryError(_) => "Query Error",
            BuildQueryErrorKind::__Nonexhaustive => "__Nonexhaustive",
        }
    }
}

/// The error of building a query.
#[derive(Debug)]
pub struct BuildQueryError(pub BuildQueryErrorKind);

impl BuildQueryError {
    /// The kind of this error.
    pub fn kind(&self) -> (r: &BuildQueryErrorKind)
        ensures
            *r == self.0,
    {
        &self.0
    }
}

impl From<Error> for BuildQueryError {
    fn from(e: Error) -> (r: BuildQueryError) {
        BuildQueryError(BuildQueryErrorKind::QueryError(Box::new(e)))
    }
}

impl vstd::std_specs::convert::FromSpecImpl<Error> for BuildQueryError {
    open spec fn obeys_from_spec() -> bool {
        true
    }

    open spec fn from_spec(e: Error) -> BuildQueryError {
        BuildQueryError(BuildQueryErrorKind::QueryError(Box::new(e)))
    }
}

/// The result of building a query.
pub type BuildQueryResult = Result<(), BuildQueryError>;

/// The kind of statement a query builder is writing.
#[derive(Debug, Clone, Copy, PartialEq, Eq, Structural)]
pub enum Context {
    Select,
    Insert,
}

} // verus!

verus! {

/// The text that `{:?}` gives for an error: that of its derived `Debug`.
pub uninterp spec fn error_debug_text(e: Error) -> Seq<char>;

/// Formats an error with `format!("{:?}", ..)`, the `Debug` that `derive`
/// writes for it. The contract claims only that the text is a function of the
/// error's value; what that text is, `std::fmt` decides and nothing here proves.
#[verifier::external_body]
fn error_debug_string(e: &Error) -> (r: String)
    ensures
        r@ == error_debug_text(*e),
{
    format!("{:?}", e)
}

impl BuildQueryErrorKind {
    /// The text that shows the error: the plain message, or `Query Error: `
    /// and the `Debug` text of the error it wraps.
    pub open spec fn display_view(self) -> Seq<char> {
        match self {
            BuildQueryErrorKind::Msg(s) => s@,
            BuildQueryErrorKind::QueryError(e) => "Query Error: "@ + error_debug_text(*e),
            BuildQueryErrorKind::__Nonexhaustive => "__Nonexhaustive"@,
        }
    }

    /// The text that shows the error: the plain message, or `Query Error: `
    /// and the `Debug` text of the error it wraps.
    pub fn to_display_string(&self) -> (r: String)
        ensures
            r@ == self.display_view(),
    {
        match self {
            BuildQueryErrorKind::Msg(s) => s.clone(),
            BuildQueryErrorKind::QueryError(e) => {
                let mut out = String::new();
                out.append("Query Error: ");
                let d = error_debug_string(&**e);
                out.append(d.as_str());
                out
            },
            BuildQueryErrorKind::__Nonexhaustive => "__Nonexhaustive".to_owned(),
        }
    }
}

} // verus!

verus! {

/// Identifies a type of query so its prepared statement can be cached:
/// `QueryId` names the type, and `HAS_STATIC_QUERY_ID` tells whether that
/// name alone fixes the SQL text.
pub trait QueryId {
    type QueryId;

    const HAS_STATIC_QUERY_ID: bool;
}

/// A complete query, whose rows are of the SQL type `SqlType`.
pub trait Query {
    type SqlType;
}

} // verus!
