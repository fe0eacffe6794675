//! A store held in memory: one entry per key, advanced by the same
//! increment step as the database backend.
use vstd::prelude::*;
use crate::entry::{Entry, StoreError, Timestamp};
use crate::model::{can_advance, counts_positive, increment, lookup, next_row, Rows};
use crate::step::next_entry;

verus! {

/// Entries kept in memory, at most one per key.
pub struct MemStore {
    entries: Vec<Entry>,
    rows: Ghost<Rows>,
}

impl View for MemStore {
    type V = Rows;

    closed spec fn view(&self) -> Rows {
        self.rows@
    }
}

impl MemStore {
    /// Keys are unique, every entry is a row of the view, every row of the
    /// view is an entry, and every stored count is positive.
    pub closed spec fn wf(&self) -> bool {
        &&& forall|i: int, j: int|
            0 <= i < j < self.entries@.len() ==> self.entries@[i].id@ != self.entries@[j].id@
        &&& forall|i: int|
            0 <= i < self.entries@.len() ==> {
                &&& self.rows@.contains_key(#[trigger] self.entries@[i].id@)
                &&& self.rows@[self.entries@[i].id@] == self.entries@[i].row()
            }
        &&& forall|k: Seq<char>|
            #[trigger] self.rows@.contains_key(k) ==> exists|i: int|
                0 <= i < self.entries@.len() && #[trigger] self.entries@[i].id@ == k
        &&& counts_positive(self.rows@)
    }

    /// Every count held by a well-formed store is at least 1, so a key is
    /// advanced exactly when its count is below the largest 64-bit value.
    pub proof fn lemma_counts_positive(&self)
        requires
            self.wf(),
        ensures
            counts_positive(self@),
            forall|k: Seq<char>| #[trigger] can_advance(lookup(self@, k)) <==> (!self@.contains_key(k)
                || self@[k].0 < i64::MAX),
    {
    }

    /// An empty store.
    pub fn new() -> (r: MemStore)
        ensures
            r.wf(),
            r@ == Map::<Seq<char>, (int, int)>::empty(),
            counts_positive(r@),
    {
        MemStore { entries: Vec::new(), rows: Ghost(Map::empty()) }
    }

    /// Position of the entry of `id`, if there is one.
    fn position(&self, id: &String) -> (r: Option<usize>)
        requires
            self.wf(),
        ensures
            r is None <==> !self@.contains_key(id@),
            r matches Some(i) ==> i < self.entries@.len() && self.entries@[i as int].id@ == id@,
    {
        let mut i: usize = 0;
        while i < self.entries.len()
            invariant
                self.wf(),
                i <= self.entries@.len(),
                forall|j: int| 0 <= j < i ==> self.entries@[j].id@ != id@,
            decreases self.entries@.len() - i,
        {
            if self.entries[i].id == *id {
                return Some(i);
            }
            i = i + 1;
        }
        None
    }

    /// The entry of `id` as currently stored, or `NotFound`.
    pub fn fetch(&self, id: &String) -> (r: Result<Entry, StoreError>)
        requires
            self.wf(),
        ensures
            r is Ok <==> self@.contains_key(id@),
            r is Err ==> r == Err::<Entry, StoreError>(StoreError::NotFound),
            r matches Ok(e) ==> e.id@ == id@ && e.row() == self@[id@],
    {
        match self.position(id) {
            Some(i) => Ok(self.entries[i].clone_entry()),
            None => Err(StoreError::NotFound),
        }
    }

    /// Increments `id` at instant `now` (the caller reads the clock),
    /// creating it with count 1 when absent, and returns the entry as this
    /// call left it. A count that cannot grow gives `Unrecoverable` and leaves
    /// the store as it was.
    pub fn increment_or_create(&mut self, id: String, now: Timestamp) -> (r: Result<
        Entry,
        StoreError,
    >)
        requires
            old(self).wf(),
        ensures
            final(self).wf(),
            counts_positive(final(self)@),
            r is Ok <==> can_advance(lookup(old(self)@, id@)),
            r is Err ==> r == Err::<Entry, StoreError>(StoreError::Unrecoverable) && final(self)@
                == old(self)@,
            r matches Ok(e) ==> final(self)@ == increment(old(self)@, id@, now.micros as int)
                && e.id@ == id@ && e.row() == final(self)@[id@],
    {
        let pos = self.position(&id);
        let prev = match pos {
            Some(i) => Some(self.entries[i].clone_entry()),
            None => None,
        };
        let key = id.clone();
        match next_entry(key, &prev, now) {
            Err(e) => Err(e),
            Ok(entry) => {
                let ghost old_rows = self.rows@;
                let ghost k = id@;
                let stored = entry.clone_entry();
                match pos {
                    Some(i) => {
                        self.entries.set(i, stored);
                    },
                    None => {
                        self.entries.push(stored);
                    },
                }
                self.rows = Ghost(old_rows.insert(k, next_row(lookup(old_rows, k), now.micros as int)));
                proof {
                    let n = self.entries@.len();
                    assert forall|kk: Seq<char>| #[trigger] self.rows@.contains_key(kk) implies exists|j: int|
                        0 <= j < n && #[trigger] self.entries@[j].id@ == kk by {
                        if kk == k {
                            match pos {
                                Some(i) => assert(self.entries@[i as int].id@ == kk),
                                None => assert(self.entries@[n - 1].id@ == kk),
                            }
                        } else {
                            assert(old_rows.contains_key(kk));
                            let j = choose|j: int| 0 <= j < old(self).entries@.len() && #[trigger] old(self).entries@[j].id@ == kk;
                            assert(self.entries@[j].id@ == kk);
                        }
                    }
                }
                Ok(entry)
            },
        }
    }
}

} // verus!
