//! The decisions of an increment run as a database transaction: open it,
//! read the row of the key, replace it (delete, then insert) or create it,
//! commit. The caller performs each action against the database and hands
//! back what happened; any failure before commit aborts the transaction, so
//! nothing of it becomes visible.
//!
//! The caller opens the transaction at an isolation level that keeps two
//! transactions from reading the same row before either commits (serializable,
//! or a row lock taken by the read).
use vstd::prelude::*;
use crate::entry::{Entry, StoreError, Timestamp};
use crate::model::{can_advance, next_row};
use crate::step::next_entry;

verus! {

/// Where an increment transaction stands.
pub enum TxnState {
    /// Waiting for the transaction to open.
    Opening { id: String, now: Timestamp },
    /// Waiting for the current row of the key.
    Reading { id: String, now: Timestamp },
    /// Waiting for the old row to be deleted; `entry` replaces it.
    Deleting { entry: Entry },
    /// Waiting for `entry` to be inserted.
    Inserting { entry: Entry },
    /// Waiting for the commit that makes `entry` visible.
    Committing { entry: Entry },
    /// Nothing is left to do.
    Finished,
}

/// What the database answered to the last action.
pub enum TxnEvent {
    /// The transaction is open.
    Opened,
    /// The key has this row.
    Row(Entry),
    /// The key has no row.
    NoRow,
    /// The statement or the commit took effect.
    Applied,
    /// The connection, the statement or the commit failed.
    Failed,
    /// An insert met a row of the same key that another writer committed.
    Conflict,
}

/// What the caller does next.
pub enum TxnAction {
    /// Open a transaction.
    Open,
    /// Read the row of this key.
    Select(String),
    /// Delete the row of this key.
    Delete(String),
    /// Insert this entry.
    Insert(Entry),
    /// Commit the transaction.
    Commit,
    /// Roll back (or drop) the transaction and report this error.
    Abort(StoreError),
    /// Report this entry: it is committed.
    Reply(Entry),
}

/// Begins an increment of `id`, stamped `now`.
pub fn start(id: String, now: Timestamp) -> (r: (TxnState, TxnAction))
    ensures
        r.0 == (TxnState::Opening { id, now }),
        r.1 is Open,
{
    (TxnState::Opening { id, now }, TxnAction::Open)
}

/// The next state and action, given the answer to the last action. A failure
/// before the reply aborts with `Transient`, a uniqueness conflict with
/// `Conflict`; a stored row that cannot be
/// advanced, or an answer that does not fit the state, aborts with
/// `Unrecoverable`.
pub fn advance(state: TxnState, ev: TxnEvent) -> (r: (TxnState, TxnAction))
    ensures
        ev is Failed && !(state is Finished) ==> r.0 is Finished && r.1 == TxnAction::Abort(
            StoreError::Transient,
        ),
        ev is Conflict && !(state is Finished) ==> r.0 is Finished && r.1 == TxnAction::Abort(
            StoreError::Conflict,
        ),
        state is Finished ==> r.0 is Finished && r.1 == TxnAction::Abort(StoreError::Unrecoverable),
        state matches TxnState::Opening { id, now } ==> ev is Opened ==> r.0 == (TxnState::Reading {
            id,
            now,
        }) && r.1 == TxnAction::Select(id),
        state matches TxnState::Reading { id, now } ==> ev matches TxnEvent::Row(p) ==> if can_advance(
            Some(p.row()),
        ) {
            (r.0 matches TxnState::Deleting { entry } && entry.id == id && entry.row() == next_row(
                Some(p.row()),
                now.micros as int,
            ) && r.1 == TxnAction::Delete(id))
        } else {
            r.0 is Finished && r.1 == TxnAction::Abort(StoreError::Unrecoverable)
        },
        state matches TxnState::Reading { id, now } ==> ev is NoRow ==> (r.0 matches TxnState::Inserting {
            entry,
        } && entry.id == id && entry.row() == next_row(None, now.micros as int) && r.1
            == TxnAction::Insert(entry)),
        state matches TxnState::Deleting { entry } ==> ev is Applied ==> r.0 == (TxnState::Inserting {
            entry,
        }) && r.1 == TxnAction::Insert(entry),
        state matches TxnState::Inserting { entry } ==> ev is Applied ==> r.0 == (
        TxnState::Committing { entry }) && r.1 is Commit,
        state matches TxnState::Committing { entry } ==> ev is Applied ==> r.0 is Finished && r.1
            == TxnAction::Reply(entry),
        !(state is Finished) && !(ev is Failed) && !(ev is Conflict) && !(state is Opening && ev is Opened) && !(
        state is Reading && (ev is Row || ev is NoRow)) && !((state is Deleting || state is Inserting
            || state is Committing) && ev is Applied) ==> r.0 is Finished && r.1 == TxnAction::Abort(
            StoreError::Unrecoverable,
        ),
{
    match (state, ev) {
        (TxnState::Finished, _) => (TxnState::Finished, TxnAction::Abort(StoreError::Unrecoverable)),
        (_, TxnEvent::Failed) => (TxnState::Finished, TxnAction::Abort(StoreError::Transient)),
        (_, TxnEvent::Conflict) => (TxnState::Finished, TxnAction::Abort(StoreError::Conflict)),
        (TxnState::Opening { id, now }, TxnEvent::Opened) => {
            let key = id.clone();
            (TxnState::Reading { id, now }, TxnAction::Select(key))
        },
        (TxnState::Reading { id, now }, TxnEvent::Row(p)) => {
            let key = id.clone();
            match next_entry(id, &Some(p), now) {
                Ok(entry) => (TxnState::Deleting { entry }, TxnAction::Delete(key)),
                Err(e) => (TxnState::Finished, TxnAction::Abort(e)),
            }
        },
        (TxnState::Reading { id, now }, TxnEvent::NoRow) => {
            match next_entry(id, &None, now) {
                Ok(entry) => {
                    let copy = entry.clone_entry();
                    (TxnState::Inserting { entry }, TxnAction::Insert(copy))
                },
                Err(e) => (TxnState::Finished, TxnAction::Abort(e)),
            }
        },
        (TxnState::Deleting { entry }, TxnEvent::Applied) => {
            let copy = entry.clone_entry();
            (TxnState::Inserting { entry }, TxnAction::Insert(copy))
        },
        (TxnState::Inserting { entry }, TxnEvent::Applied) => (
            TxnState::Committing { entry },
            TxnAction::Commit,
        ),
        (TxnState::Committing { entry }, TxnEvent::Applied) => (TxnState::Finished, TxnAction::Reply(entry)),
        (_, _) => (TxnState::Finished, TxnAction::Abort(StoreError::Unrecoverable)),
    }
}

} // verus!
