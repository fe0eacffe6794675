//! What the HTTP surface answers: a key is validated before it reaches the
//! store, and the store's result becomes a status and, on success, an entry.
use vstd::prelude::*;
use crate::entry::{Entry, StoreError, Timestamp};
use crate::key::{key_is_valid, validate_key};
use crate::memstore::MemStore;
use crate::model::{can_advance, counts_positive, increment, lookup, next_count};

verus! {

/// The answer to one request.
pub enum Reply {
    /// 200, with the entry as its body.
    Found(Entry),
    /// 400: the key is malformed.
    BadRequest,
    /// 404: the key has no row.
    NotFound,
    /// 500: the store failed.
    ServerError,
}

impl Reply {
    /// The HTTP status code of this answer.
    pub fn status(&self) -> (r: u16)
        ensures
            r == match self {
                Reply::Found(_) => 200u16,
                Reply::BadRequest => 400u16,
                Reply::NotFound => 404u16,
                Reply::ServerError => 500u16,
            },
    {
        match self {
            Reply::Found(_) => 200,
            Reply::BadRequest => 400,
            Reply::NotFound => 404,
            Reply::ServerError => 500,
        }
    }
}

/// The answer to `GET /{id}` for the store's result: the entry, 404 on a
/// miss, 400 on a malformed key, 500 on any other failure.
pub fn fetch_reply(r: Result<Entry, StoreError>) -> (out: Reply)
    ensures
        match r {
            Ok(e) => out == Reply::Found(e),
            Err(StoreError::NotFound) => out is NotFound,
            Err(StoreError::Invalid) => out is BadRequest,
            Err(_) => out is ServerError,
        },
{
    match r {
        Ok(e) => Reply::Found(e),
        Err(StoreError::NotFound) => Reply::NotFound,
        Err(StoreError::Invalid) => Reply::BadRequest,
        Err(_) => Reply::ServerError,
    }
}

/// The answer to `POST /{id}` for the store's result: the entry, 400 on a
/// malformed key, 500 on any store failure.
pub fn update_reply(r: Result<Entry, StoreError>) -> (out: Reply)
    ensures
        match r {
            Ok(e) => out == Reply::Found(e),
            Err(StoreError::Invalid) => out is BadRequest,
            Err(_) => out is ServerError,
        },
{
    match r {
        Ok(e) => Reply::Found(e),
        Err(StoreError::Invalid) => Reply::BadRequest,
        Err(_) => Reply::ServerError,
    }
}

impl MemStore {
    /// Serves `GET /{id}`: a malformed key is refused before the store is read.
    pub fn handle_get(&self, id: &String) -> (out: Reply)
        requires
            self.wf(),
        ensures
            !key_is_valid(id@) ==> out is BadRequest,
            key_is_valid(id@) && !self@.contains_key(id@) ==> out is NotFound,
            key_is_valid(id@) && self@.contains_key(id@) ==> (out matches Reply::Found(e)
                && e.id@ == id@ && e.row() == self@[id@]),
    {
        match validate_key(id.as_str()) {
            Err(e) => fetch_reply(Err(e)),
            Ok(()) => fetch_reply(self.fetch(id)),
        }
    }

    /// Serves `POST /{id}` at instant `now`: a malformed key is refused
    /// before the store is touched; otherwise the key is incremented or
    /// created.
    pub fn handle_post(&mut self, id: String, now: Timestamp) -> (out: Reply)
        requires
            old(self).wf(),
        ensures
            final(self).wf(),
            counts_positive(final(self)@),
            !key_is_valid(id@) ==> out is BadRequest && final(self)@ == old(self)@,
            key_is_valid(id@) && !can_advance(lookup(old(self)@, id@)) ==> out is ServerError
                && final(self)@ == old(self)@,
            key_is_valid(id@) && can_advance(lookup(old(self)@, id@)) ==> (out matches Reply::Found(e)
                && e.id@ == id@ && e.count == next_count(lookup(old(self)@, id@)) && e.row()
                == final(self)@[id@] && final(self)@ == increment(old(self)@, id@, now.micros as int)),
    {
        match validate_key(id.as_str()) {
            Err(e) => {
                proof {
                    self.lemma_counts_positive();
                }
                update_reply(Err(e))
            },
            Ok(()) => update_reply(self.increment_or_create(id, now)),
        }
    }
}

} // verus!
