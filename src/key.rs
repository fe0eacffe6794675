//! Key validation: a key is a non-empty string of at most 64 bytes.
use vstd::prelude::*;
use vstd::utf8::encode_utf8;
use crate::entry::StoreError;

verus! {

/// The largest key, in bytes of its UTF-8 encoding.
pub const MAX_KEY_BYTES: usize = 64;

/// Length of a key in bytes of its UTF-8 encoding.
pub open spec fn key_bytes(s: Seq<char>) -> nat {
    encode_utf8(s).len()
}

/// A key that the store accepts.
pub open spec fn key_is_valid(s: Seq<char>) -> bool {
    1 <= key_bytes(s) <= MAX_KEY_BYTES
}

/// Accepts a key of 1 to 64 bytes; rejects any other with `Invalid`.
pub fn validate_key(id: &str) -> (r: Result<(), StoreError>)
    ensures
        r is Ok <==> key_is_valid(id@),
        r is Err ==> r == Err::<(), StoreError>(StoreError::Invalid),
{
    let n = id.as_bytes().len();
    if n == 0 || n > MAX_KEY_BYTES {
        Err(StoreError::Invalid)
    } else {
        Ok(())
    }
}

} // verus!
