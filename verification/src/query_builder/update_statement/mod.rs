//! Update statements.

use vstd::prelude::*;

pub mod changeset;
pub use self::changeset::{AsChangeset, AsChangesetImpl, Assign, BatchUpdate, SingleUpdate};

verus! {

/// The changesets of a batch update, one for each row.
pub struct BatchChangeset<T> {
    pub changesets: T,
}

impl<T> BatchChangeset<T> {
    /// The batch of the given changesets.
    pub fn new(changesets: T) -> (r: Self)
        ensures
            r.changesets == changesets,
    {
        BatchChangeset { changesets }
    }
}

} // verus!
