use vstd::prelude::*;

use crate::idempotency::IdempotencyKey;

verus! {

/// One header of a saved HTTP response.
pub struct HeaderPairRecord {
    pub name: String,
    pub value: Vec<u8>,
}

/// Identifies a saved response: who submitted it, with which key.
#[derive(Debug)]
pub struct SavedResponseKey {
    pub user_id: uuid::Uuid,
    pub idempotency_key: IdempotencyKey,
}

impl SavedResponseKey {
    /// The same key, holding its own copy of the text.
    pub fn into_owned(self) -> (r: SavedResponseKey)
        ensures
            r.user_id == self.user_id,
            r.idempotency_key@ == self.idempotency_key@,
    {
        SavedResponseKey { user_id: self.user_id, idempotency_key: self.idempotency_key.into_owned() }
    }
}

/// A response saved for an idempotency key.
pub struct SavedResponseBody {
    pub response_status_code: u16,
    pub response_headers: Vec<HeaderPairRecord>,
    pub response_body: Vec<u8>,
}

#[derive(Debug)]
pub enum GetSavedResponseBodyError {
    NotFound(SavedResponseKey),
    Unexpected(eyre::Report),
}

impl GetSavedResponseBodyError {
    /// The same error, holding its own copy of any key.
    pub fn into_owned(self) -> (r: GetSavedResponseBodyError)
        ensures
            match (self, r) {
                (GetSavedResponseBodyError::NotFound(k), GetSavedResponseBodyError::NotFound(k2)) =>
                    k2.user_id == k.user_id && k2.idempotency_key@ == k.idempotency_key@,
                (GetSavedResponseBodyError::Unexpected(e), GetSavedResponseBodyError::Unexpected(e2)) => e2 == e,
                _ => false,
            },
    {
        match self {
            GetSavedResponseBodyError::NotFound(key) => GetSavedResponseBodyError::NotFound(key.into_owned()),
            GetSavedResponseBodyError::Unexpected(e) => GetSavedResponseBodyError::Unexpected(e),
        }
    }
}

#[derive(Debug)]
pub enum SaveResponseBodyError {
    Unexpected(eyre::Report),
}

} // verus!
