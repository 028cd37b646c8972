//! The revocation store, as the engine sees it.
//!
//! The backing store is an external TTL-capable key-value service. The engine
//! never talks to it directly: it emits [`StoreWrite`] commands and consumes
//! lookup results, and the surrounding application performs the round trips.
//! For reasoning, the store's visible contents are modelled as a map from key
//! text to a record with an absolute expiry; a record is live until its
//! expiry instant, at which point the store drops it.

use vstd::prelude::*;

verus! {

/// The store could not be reached, or a pipelined "set + expire" may have
/// been applied only in part. Callers must fail the surrounding operation;
/// a token whose revocation check did not complete is never treated as valid.
#[derive(Clone, Copy, PartialEq, Eq, Structural, Debug)]
pub struct StoreError;

impl StoreError {
    /// Human-readable description of this error.
    pub fn message(&self) -> (r: &'static str)
        ensures
            r@ == "Store error"@,
    {
        "Store error"
    }

    /// Stable machine code for this error.
    pub fn code(&self) -> (r: &'static str)
        ensures
            r@ == "StoreError"@,
    {
        "StoreError"
    }
}

/// One atomic "set this value under this key, expiring at this instant"
/// command against the store.
pub struct StoreWrite {
    pub key: String,
    pub value: String,
    /// Absolute expiry, epoch seconds; the store drops the record at this
    /// instant.
    pub expire_at: u64,
}

/// A record as the store model holds it.
pub struct SpecRecord {
    pub value: Seq<char>,
    pub expire_at: int,
}

/// The store contents after applying a write command.
pub open spec fn store_apply(m: Map<Seq<char>, SpecRecord>, w: StoreWrite) -> Map<
    Seq<char>,
    SpecRecord,
> {
    m.insert(w.key@, SpecRecord { value: w.value@, expire_at: w.expire_at as int })
}

/// Whether `key` holds a live (unexpired) record at time `now`.
pub open spec fn store_live(m: Map<Seq<char>, SpecRecord>, key: Seq<char>, now: int) -> bool {
    m.dom().contains(key) && m[key].expire_at > now
}

/// What a `get` on `key` at time `now` yields: the value while the record is
/// live, nothing once it expired or was never written.
pub open spec fn store_get(m: Map<Seq<char>, SpecRecord>, key: Seq<char>, now: int) -> Option<
    Seq<char>,
> {
    if store_live(m, key, now) {
        Some(m[key].value)
    } else {
        None
    }
}

} // verus!
