//! The stored record and the store's error kinds.
use vstd::prelude::*;

verus! {

/// An instant, as microseconds since the Unix epoch in UTC.
#[derive(Clone, Copy, Debug, PartialEq, Eq, Structural)]
pub struct Timestamp {
    pub micros: i64,
}

/// The record kept for one key.
#[derive(Clone, Debug)]
pub struct Entry {
    pub id: String,
    pub count: i64,
    pub modified_at: Timestamp,
}

/// Why a store operation did not produce an entry.
#[derive(Clone, Copy, Debug, PartialEq, Eq, Structural)]
pub enum StoreError {
    /// The key has no row.
    NotFound,
    /// The connection or the transaction failed before commit; the caller may retry.
    Transient,
    /// The key is malformed and never reached the store.
    Invalid,
    /// Another writer created the same key first and the transaction did
    /// not resolve it; retrying is not expected to help.
    Conflict,
    /// The stored data cannot be advanced (a negative count, or one at the
    /// largest value a row can hold).
    Unrecoverable,
}

impl Entry {
    /// The row state that this entry records: its count and its timestamp.
    pub open spec fn row(&self) -> (int, int) {
        (self.count as int, self.modified_at.micros as int)
    }

    /// A copy of this entry.
    pub fn clone_entry(&self) -> (r: Entry)
        ensures
            r.id == self.id,
            r.count == self.count,
            r.modified_at == self.modified_at,
    {
        Entry { id: self.id.clone(), count: self.count, modified_at: self.modified_at }
    }
}

} // verus!
