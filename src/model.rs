//! The store as a map from key to row `(count, modified_at)`, the effect of
//! one increment on it, and what holds of any serialized history of
//! increments.
use vstd::prelude::*;

verus! {

/// Rows of the store: key to `(count, modified_at in microseconds)`.
pub type Rows = Map<Seq<char>, (int, int)>;

/// The row of `k`, if there is one.
pub open spec fn lookup(m: Rows, k: Seq<char>) -> Option<(int, int)> {
    if m.contains_key(k) {
        Some(m[k])
    } else {
        None
    }
}

/// The later of two instants.
pub open spec fn later(a: int, b: int) -> int {
    if a > b {
        a
    } else {
        b
    }
}

/// The count after one increment: 1 for a new row, else one more than before.
pub open spec fn next_count(prev: Option<(int, int)>) -> int {
    match prev {
        None => 1,
        Some(r) => r.0 + 1,
    }
}

/// The timestamp after one increment at instant `now`: it never moves back.
pub open spec fn next_stamp(prev: Option<(int, int)>, now: int) -> int {
    match prev {
        None => now,
        Some(r) => later(r.1, now),
    }
}

/// The row after one increment at instant `now`.
pub open spec fn next_row(prev: Option<(int, int)>, now: int) -> (int, int) {
    (next_count(prev), next_stamp(prev, now))
}

/// Whether a stored row can be advanced within a 64-bit signed count.
pub open spec fn can_advance(prev: Option<(int, int)>) -> bool {
    match prev {
        None => true,
        Some(r) => 0 <= r.0 < i64::MAX,
    }
}

/// Every row holds a count of at least 1.
pub open spec fn counts_positive(m: Rows) -> bool {
    forall|k: Seq<char>| #[trigger] m.contains_key(k) ==> m[k].0 >= 1
}

/// The store after incrementing `k` at instant `now`.
pub open spec fn increment(m: Rows, k: Seq<char>, now: int) -> Rows {
    m.insert(k, next_row(lookup(m, k), now))
}

/// The store after a serialized history of increments, each a key and the
/// instant at which its write took place.
pub open spec fn replay(m: Rows, ops: Seq<(Seq<char>, int)>) -> Rows
    decreases ops.len(),
{
    if ops.len() == 0 {
        m
    } else {
        increment(replay(m, ops.drop_last()), ops.last().0, ops.last().1)
    }
}

/// How many increments of a history target `k`.
pub open spec fn increments_of(ops: Seq<(Seq<char>, int)>, k: Seq<char>) -> nat
    decreases ops.len(),
{
    if ops.len() == 0 {
        0
    } else {
        increments_of(ops.drop_last(), k) + if ops.last().0 == k {
            1nat
        } else {
            0nat
        }
    }
}

/// The increments of a history that target `k`, in their order.
pub open spec fn only(ops: Seq<(Seq<char>, int)>, k: Seq<char>) -> Seq<(Seq<char>, int)>
    decreases ops.len(),
{
    if ops.len() == 0 {
        ops
    } else if ops.last().0 == k {
        only(ops.drop_last(), k).push(ops.last())
    } else {
        only(ops.drop_last(), k)
    }
}

/// However increments of many keys are serialized, starting from an empty
/// store, a key has a row exactly when it was incremented, and its count is
/// the number of increments that targeted it: no update is lost.
pub proof fn lemma_count_is_number_of_increments(ops: Seq<(Seq<char>, int)>, k: Seq<char>)
    ensures
        replay(Map::empty(), ops).contains_key(k) <==> increments_of(ops, k) > 0,
        replay(Map::empty(), ops).contains_key(k) ==> replay(Map::empty(), ops)[k].0
            == increments_of(ops, k),
    decreases ops.len(),
{
    if ops.len() > 0 {
        lemma_count_is_number_of_increments(ops.drop_last(), k);
    }
}

proof fn lemma_increments_grow_with_prefix(ops: Seq<(Seq<char>, int)>, k: Seq<char>, a: int, b: int)
    requires
        0 <= a <= b <= ops.len(),
    ensures
        increments_of(ops.take(a), k) <= increments_of(ops.take(b), k),
    decreases b - a,
{
    if a < b {
        lemma_increments_grow_with_prefix(ops, k, a, b - 1);
        assert(ops.take(b).drop_last() =~= ops.take(b - 1));
    }
}

/// In any serialized history, two increments of the same key never see the
/// same count: the later one returns strictly more.
pub proof fn lemma_no_two_increments_see_the_same_count(
    ops: Seq<(Seq<char>, int)>,
    i: int,
    j: int,
)
    requires
        0 <= i < j < ops.len(),
        ops[i].0 == ops[j].0,
    ensures
        replay(Map::empty(), ops.take(i + 1))[ops[i].0].0 < replay(Map::empty(), ops.take(j + 1))[ops[j].0].0,
{
    let k = ops[i].0;
    assert(ops.take(i + 1).drop_last() =~= ops.take(i));
    assert(ops.take(j + 1).drop_last() =~= ops.take(j));
    lemma_increments_grow_with_prefix(ops, k, i + 1, j);
    lemma_count_is_number_of_increments(ops.take(i + 1), k);
    lemma_count_is_number_of_increments(ops.take(j + 1), k);
}

/// Increments of other keys never change the row of `k`: the row of `k`
/// after any history is its row after the increments of `k` alone.
pub proof fn lemma_keys_are_independent(m: Rows, ops: Seq<(Seq<char>, int)>, k: Seq<char>)
    ensures
        lookup(replay(m, ops), k) == lookup(replay(m, only(ops, k)), k),
    decreases ops.len(),
{
    if ops.len() > 0 {
        lemma_keys_are_independent(m, ops.drop_last(), k);
        let prefix = only(ops.drop_last(), k);
        if ops.last().0 == k {
            let full = only(ops, k);
            assert(full.drop_last() =~= prefix);
        }
    }
}

/// The history of `n` increments of one key, at the given instants.
pub open spec fn repeated(k: Seq<char>, stamps: Seq<int>) -> Seq<(Seq<char>, int)> {
    Seq::new(stamps.len(), |i: int| (k, stamps[i]))
}

/// Sequential increments of one key, starting from an empty store, return
/// the counts 1, 2, ..., N in call order, and the row then holds N.
pub proof fn lemma_sequential_counts(k: Seq<char>, stamps: Seq<int>, i: int)
    requires
        0 <= i < stamps.len(),
    ensures
        replay(Map::empty(), repeated(k, stamps).take(i + 1)).contains_key(k),
        replay(Map::empty(), repeated(k, stamps).take(i + 1))[k].0 == i + 1,
        replay(Map::empty(), repeated(k, stamps))[k].0 == stamps.len(),
{
    lemma_all_one_key(k, repeated(k, stamps).take(i + 1));
    lemma_count_is_number_of_increments(repeated(k, stamps).take(i + 1), k);
    lemma_all_one_key(k, repeated(k, stamps));
    lemma_count_is_number_of_increments(repeated(k, stamps), k);
}

proof fn lemma_all_one_key(k: Seq<char>, ops: Seq<(Seq<char>, int)>)
    requires
        forall|j: int| 0 <= j < ops.len() ==> (#[trigger] ops[j]).0 == k,
    ensures
        increments_of(ops, k) == ops.len(),
    decreases ops.len(),
{
    if ops.len() > 0 {
        lemma_all_one_key(k, ops.drop_last());
    }
}

/// The timestamp of a row never moves back when it is incremented.
pub proof fn lemma_modified_at_never_decreases(m: Rows, k: Seq<char>, now: int)
    requires
        m.contains_key(k),
    ensures
        increment(m, k, now)[k].1 >= m[k].1,
        increment(m, k, now)[k].1 >= now,
{
}

} // verus!
