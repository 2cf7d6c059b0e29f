//! Resolution of execution-layer hashes: what the hash of a stored transaction
//! is, or would be, at a given retry index.

use crate::primitives::Hash256;
use crate::store::{lookup, PendingStore, RecordView};
use crate::translation::derived_hash;
use vstd::prelude::*;

verus! {

/// Why a hash could not be resolved.
#[derive(Clone, Copy, Debug, PartialEq, Eq, Structural)]
pub enum ResolveError {
    /// No transaction with the given hash was ever stored.
    NotFound,
}

/// The execution-layer hash of the stored transaction `h` at the given retry
/// index, whether or not that retry was ever submitted.
pub open spec fn resolve_spec(s: Seq<RecordView>, h: Seq<u8>, retry: u8) -> Result<
    Seq<u8>,
    ResolveError,
> {
    match lookup(s, h) {
        None => Err(ResolveError::NotFound),
        Some(record) => Ok(derived_hash(record.raw_transaction, retry)),
    }
}

/// Resolves the execution-layer hash of a stored transaction at a retry index.
/// Reads the store and translates; nothing is changed or submitted.
pub fn resolve(store: &PendingStore, ethereum_hash: &Hash256, retry: u8) -> (r: Result<
    Hash256,
    ResolveError,
>)
    ensures
        match r {
            Ok(h) => resolve_spec(store@, ethereum_hash@, retry) == Ok::<Seq<u8>, ResolveError>(h@),
            Err(e) => resolve_spec(store@, ethereum_hash@, retry) == Err::<Seq<u8>, ResolveError>(
                e,
            ),
        },
{
    match store.get(ethereum_hash) {
        None => Err(ResolveError::NotFound),
        Some(record) => {
            let (_, hash) = crate::translation::derive(&record.raw_transaction, retry);
            Ok(hash)
        },
    }
}

} // verus!
