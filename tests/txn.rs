use entry_counter::entry::{Entry, StoreError, Timestamp};
use entry_counter::txn::{advance, start, TxnAction, TxnEvent, TxnState};

fn now() -> Timestamp {
    Timestamp { micros: 1000 }
}

#[test]
fn txn_creates_missing_row_with_count_one() {
    let (s, a) = start("k".to_string(), now());
    assert!(matches!(a, TxnAction::Open));
    let (s, a) = advance(s, TxnEvent::Opened);
    assert!(matches!(a, TxnAction::Select(ref k) if k == "k"));
    let (s, a) = advance(s, TxnEvent::NoRow);
    match &a {
        TxnAction::Insert(e) => assert_eq!((e.id.as_str(), e.count, e.modified_at), ("k", 1, now())),
        _ => panic!("expected an insert"),
    }
    let (s, a) = advance(s, TxnEvent::Applied);
    assert!(matches!(a, TxnAction::Commit));
    let (s, a) = advance(s, TxnEvent::Applied);
    assert!(matches!(s, TxnState::Finished));
    match a {
        TxnAction::Reply(e) => assert_eq!(e.count, 1),
        _ => panic!("expected a reply"),
    }
}

#[test]
fn txn_replaces_existing_row() {
    let (s, _) = start("k".to_string(), now());
    let (s, _) = advance(s, TxnEvent::Opened);
    let row = Entry { id: "k".to_string(), count: 4, modified_at: Timestamp { micros: 2000 } };
    let (s, a) = advance(s, TxnEvent::Row(row));
    assert!(matches!(a, TxnAction::Delete(ref k) if k == "k"));
    let (s, a) = advance(s, TxnEvent::Applied);
    match &a {
        TxnAction::Insert(e) => {
            assert_eq!(e.count, 5);
            assert_eq!(e.modified_at, Timestamp { micros: 2000 });
        }
        _ => panic!("expected an insert"),
    }
    let (s, _) = advance(s, TxnEvent::Applied);
    let (_, a) = advance(s, TxnEvent::Applied);
    assert!(matches!(a, TxnAction::Reply(ref e) if e.count == 5));
}

#[test]
fn txn_failure_aborts_as_transient() {
    let (s, _) = start("k".to_string(), now());
    let (s, _) = advance(s, TxnEvent::Opened);
    let (s, _) = advance(s, TxnEvent::NoRow);
    let (s, a) = advance(s, TxnEvent::Failed);
    assert!(matches!(s, TxnState::Finished));
    assert!(matches!(a, TxnAction::Abort(StoreError::Transient)));
}

#[test]
fn txn_full_counter_aborts_as_unrecoverable() {
    let (s, _) = start("k".to_string(), now());
    let (s, _) = advance(s, TxnEvent::Opened);
    let row = Entry { id: "k".to_string(), count: i64::MAX, modified_at: now() };
    let (s, a) = advance(s, TxnEvent::Row(row));
    assert!(matches!(s, TxnState::Finished));
    assert!(matches!(a, TxnAction::Abort(StoreError::Unrecoverable)));
}

#[test]
fn txn_unexpected_answer_aborts() {
    let (s, _) = start("k".to_string(), now());
    let (s, a) = advance(s, TxnEvent::Applied);
    assert!(matches!(s, TxnState::Finished));
    assert!(matches!(a, TxnAction::Abort(StoreError::Unrecoverable)));
    let (_, a) = advance(TxnState::Finished, TxnEvent::Opened);
    assert!(matches!(a, TxnAction::Abort(StoreError::Unrecoverable)));
}

#[test]
fn txn_uniqueness_conflict_is_not_transient() {
    let (s, _) = start("k".to_string(), now());
    let (s, _) = advance(s, TxnEvent::Opened);
    let (s, _) = advance(s, TxnEvent::NoRow);
    let (s, a) = advance(s, TxnEvent::Conflict);
    assert!(matches!(s, TxnState::Finished));
    assert!(matches!(a, TxnAction::Abort(StoreError::Conflict)));
}
