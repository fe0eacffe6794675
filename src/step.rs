//! One increment of one row, computed from the row that the caller saw.
use vstd::prelude::*;
use crate::entry::{Entry, StoreError, Timestamp};
use crate::model::{can_advance, next_row};

verus! {

/// The row state of an entry that may be absent.
pub open spec fn row_of(e: Option<Entry>) -> Option<(int, int)> {
    match e {
        Some(x) => Some(x.row()),
        None => None,
    }
}

/// The entry that replaces `prev` (the row visible to this call, if any)
/// when `id` is incremented at `now`: count 1 for a new key, one more than
/// before for an existing one, stamped with the later of `now` and the old
/// stamp. A row that cannot be advanced gives `Unrecoverable`.
pub fn next_entry(id: String, prev: &Option<Entry>, now: Timestamp) -> (r: Result<Entry, StoreError>)
    ensures
        r is Ok <==> can_advance(row_of(*prev)),
        r is Err ==> r == Err::<Entry, StoreError>(StoreError::Unrecoverable),
        r matches Ok(e) ==> e.id == id && e.row() == next_row(row_of(*prev), now.micros as int),
{
    match prev {
        None => Ok(Entry { id, count: 1, modified_at: now }),
        Some(p) => {
            if p.count < 0 || p.count == i64::MAX {
                Err(StoreError::Unrecoverable)
            } else {
                let stamp = if p.modified_at.micros > now.micros {
                    p.modified_at
                } else {
                    now
                };
                Ok(Entry { id, count: p.count + 1, modified_at: stamp })
            }
        },
    }
}

} // verus!
