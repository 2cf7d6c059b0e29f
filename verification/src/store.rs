//! The pending-transaction store: one record per accepted Ethereum transaction,
//! keyed by its canonical hash and kept in the order of insertion.
//!
//! Every operation that changes a record takes the store exclusively and does
//! its reading and writing in that one call, so callers that share a store
//! behind a lock never lose an update: the store owns the mutation.

use crate::codec::{CanonicalTransaction, TxView};
use crate::primitives::Hash256;
use vstd::prelude::*;

verus! {

/// One accepted transaction and what has happened to it since.
#[derive(Clone, Debug)]
pub struct PendingRecord {
    /// The canonical hash of the transaction: the key of the record.
    pub ethereum_hash: Hash256,
    /// The decoded transaction, from which every retry is derived.
    pub raw_transaction: CanonicalTransaction,
    /// How many times the transaction has been resubmitted.
    pub retries: u8,
    /// The block that included the transaction, once it is known.
    pub block_number: Option<u64>,
}

pub ghost struct RecordView {
    pub ethereum_hash: Seq<u8>,
    pub raw_transaction: TxView,
    pub retries: u8,
    pub block_number: Option<u64>,
}

impl View for PendingRecord {
    type V = RecordView;

    open spec fn view(&self) -> RecordView {
        RecordView {
            ethereum_hash: self.ethereum_hash@,
            raw_transaction: self.raw_transaction@,
            retries: self.retries,
            block_number: self.block_number,
        }
    }
}

/// Why a store operation changed nothing.
#[derive(Clone, Copy, Debug, PartialEq, Eq, Structural)]
pub enum StoreError {
    /// A record with the same hash is already stored.
    Duplicate,
    /// No record has the given hash.
    NotFound,
    /// The record is already confirmed in another block.
    Conflict,
    /// The retry counter is at the largest value it can hold.
    MaxRetriesExceeded,
}

/// No two records share a hash.
pub open spec fn unique_hashes(s: Seq<RecordView>) -> bool {
    forall|i: int, j: int|
        0 <= i < s.len() && 0 <= j < s.len() && i != j ==> (#[trigger] s[i]).ethereum_hash != (
        #[trigger] s[j]).ethereum_hash
}

/// The record at position `i` has the hash `h`.
pub open spec fn holds_at(s: Seq<RecordView>, h: Seq<u8>, i: int) -> bool {
    0 <= i < s.len() && s[i].ethereum_hash == h
}

/// Some record has the hash `h`.
pub open spec fn contains(s: Seq<RecordView>, h: Seq<u8>) -> bool {
    exists|i: int| holds_at(s, h, i)
}

/// A position of the record with hash `h`, where there is one.
pub open spec fn index_of(s: Seq<RecordView>, h: Seq<u8>) -> int {
    choose|i: int| holds_at(s, h, i)
}

/// The record with hash `h`, if any.
pub open spec fn lookup(s: Seq<RecordView>, h: Seq<u8>) -> Option<RecordView> {
    if contains(s, h) {
        Some(s[index_of(s, h)])
    } else {
        None
    }
}

/// The record at position `i` is the earliest one that is not confirmed.
pub open spec fn oldest_pending_at(s: Seq<RecordView>, i: int) -> bool {
    &&& 0 <= i < s.len()
    &&& s[i].block_number is None
    &&& forall|j: int| 0 <= j < i ==> (#[trigger] s[j]).block_number is Some
}

/// The earliest-inserted record that is not confirmed, if any.
pub open spec fn oldest_pending(s: Seq<RecordView>) -> Option<RecordView> {
    if exists|i: int| oldest_pending_at(s, i) {
        Some(s[choose|i: int| oldest_pending_at(s, i)])
    } else {
        None
    }
}

/// A record as it is first stored: never resubmitted, not confirmed.
pub open spec fn fresh(r: RecordView) -> RecordView {
    RecordView { retries: 0, block_number: None, ..r }
}

/// The store and the outcome after inserting `r`.
pub open spec fn insert_spec(s: Seq<RecordView>, r: RecordView) -> (
    Seq<RecordView>,
    Result<(), StoreError>,
) {
    if contains(s, r.ethereum_hash) {
        (s, Err(StoreError::Duplicate))
    } else {
        (s.push(fresh(r)), Ok(()))
    }
}

/// The store and the outcome after incrementing the retries of `h`.
pub open spec fn increment_spec(s: Seq<RecordView>, h: Seq<u8>) -> (
    Seq<RecordView>,
    Result<u8, StoreError>,
) {
    if !contains(s, h) {
        (s, Err(StoreError::NotFound))
    } else {
        let i = index_of(s, h);
        if s[i].retries == u8::MAX {
            (s, Err(StoreError::MaxRetriesExceeded))
        } else {
            let next = (s[i].retries + 1) as u8;
            (s.update(i, RecordView { retries: next, ..s[i] }), Ok(next))
        }
    }
}

/// The store and the outcome after recording that `h` was included in block `n`.
pub open spec fn mark_mined_spec(s: Seq<RecordView>, h: Seq<u8>, n: u64) -> (
    Seq<RecordView>,
    Result<(), StoreError>,
) {
    if !contains(s, h) {
        (s, Err(StoreError::NotFound))
    } else {
        let i = index_of(s, h);
        match s[i].block_number {
            None => (s.update(i, RecordView { block_number: Some(n), ..s[i] }), Ok(())),
            Some(m) => if m == n {
                (s, Ok(()))
            } else {
                (s, Err(StoreError::Conflict))
            },
        }
    }
}

/// With unique hashes, a record found at a position is the record of its hash.
pub proof fn lemma_index_of_is_unique(s: Seq<RecordView>, h: Seq<u8>, i: int)
    requires
        unique_hashes(s),
        holds_at(s, h, i),
    ensures
        contains(s, h),
        index_of(s, h) == i,
        lookup(s, h) == Some(s[i]),
{
    let k = index_of(s, h);
    assert(holds_at(s, h, k));
    if k != i {
        assert(s[k].ethereum_hash != s[i].ethereum_hash);
    }
}

/// The earliest pending position is unique.
pub proof fn lemma_oldest_pending_is_unique(s: Seq<RecordView>, i: int)
    requires
        oldest_pending_at(s, i),
    ensures
        oldest_pending(s) == Some(s[i]),
{
    let k = choose|k: int| oldest_pending_at(s, k);
    assert(oldest_pending_at(s, k));
    if k < i {
        assert(s[k].block_number is Some);
    } else if i < k {
        assert(s[i].block_number is Some);
    }
}

/// The store of pending transactions.
pub struct PendingStore {
    records: Vec<PendingRecord>,
}

impl View for PendingStore {
    type V = Seq<RecordView>;

    closed spec fn view(&self) -> Seq<RecordView> {
        self.records@.map_values(|r: PendingRecord| r@)
    }
}

impl PendingStore {
    #[verifier::type_invariant]
    spec fn well_formed(self) -> bool {
        unique_hashes(self@)
    }

    /// An empty store.
    pub fn new() -> (store: PendingStore)
        ensures
            store@ == Seq::<RecordView>::empty(),
    {
        let store = PendingStore { records: Vec::new() };
        assert(store@ =~= Seq::<RecordView>::empty());
        store
    }

    /// Costs nothing at run time: makes known to the verifier that no two stored
    /// records share a hash.
    pub fn hashes_are_unique(&self)
        ensures
            unique_hashes(self@),
    {
        proof {
            use_type_invariant(self);
        }
    }

    /// Number of records.
    pub fn len(&self) -> (n: usize)
        ensures
            n == self@.len(),
            unique_hashes(self@),
    {
        proof {
            use_type_invariant(self);
        }
        self.records.len()
    }

    fn position(&self, hash: &Hash256) -> (r: Option<usize>)
        ensures
            unique_hashes(self@),
            self@ == self.records@.map_values(|r: PendingRecord| r@),
            match r {
                Some(i) => holds_at(self@, hash@, i as int) && index_of(self@, hash@) == i
                    && contains(self@, hash@),
                None => !contains(self@, hash@),
            },
    {
        proof {
            use_type_invariant(self);
        }
        let mut i: usize = 0;
        while i < self.records.len()
            invariant
                i <= self.records@.len(),
                self@ == self.records@.map_values(|r: PendingRecord| r@),
                unique_hashes(self@),
                forall|j: int| 0 <= j < i ==> !holds_at(self@, hash@, j),
            decreases self.records@.len() - i,
        {
            if self.records[i].ethereum_hash.same(hash) {
                proof {
                    lemma_index_of_is_unique(self@, hash@, i as int);
                }
                return Some(i);
            }
            i += 1;
        }
        None
    }

    /// Whether a record with the given hash is stored.
    pub fn contains(&self, hash: &Hash256) -> (r: bool)
        ensures
            r == contains(self@, hash@),
            unique_hashes(self@),
    {
        self.position(hash).is_some()
    }

    /// The record with the given hash.
    pub fn get(&self, hash: &Hash256) -> (r: Option<&PendingRecord>)
        ensures
            unique_hashes(self@),
            match r {
                Some(record) => lookup(self@, hash@) == Some(record@),
                None => lookup(self@, hash@) is None,
            },
    {
        match self.position(hash) {
            Some(i) => Some(&self.records[i]),
            None => None,
        }
    }

    /// The earliest-inserted record that has not been confirmed.
    pub fn get_oldest(&self) -> (r: Option<&PendingRecord>)
        ensures
            unique_hashes(self@),
            match r {
                Some(record) => oldest_pending(self@) == Some(record@),
                None => oldest_pending(self@) is None,
            },
    {
        proof {
            use_type_invariant(self);
        }
        let mut i: usize = 0;
        while i < self.records.len()
            invariant
                i <= self.records@.len(),
                self@ == self.records@.map_values(|r: PendingRecord| r@),
                unique_hashes(self@),
                forall|j: int| 0 <= j < i ==> (#[trigger] self@[j]).block_number is Some,
            decreases self.records@.len() - i,
        {
            if self.records[i].block_number.is_none() {
                proof {
                    assert(oldest_pending_at(self@, i as int));
                    lemma_oldest_pending_is_unique(self@, i as int);
                }
                return Some(&self.records[i]);
            }
            i += 1;
        }
        proof {
            assert forall|k: int| !oldest_pending_at(self@, k) by {
                if 0 <= k < self@.len() {
                    assert(self@[k].block_number is Some);
                }
            }
        }
        None
    }

    /// Stores a record for a newly accepted transaction, with no retries and no
    /// block number whatever the given record says. Fails with `Duplicate`, and
    /// changes nothing, when its hash is already stored.
    pub fn insert(&mut self, record: PendingRecord) -> (r: Result<(), StoreError>)
        ensures
            (final(self)@, r) == insert_spec(old(self)@, record@),
            unique_hashes(old(self)@),
            unique_hashes(final(self)@),
    {
        match self.position(&record.ethereum_hash) {
            Some(_) => Err(StoreError::Duplicate),
            None => {
                let stored = PendingRecord {
                    ethereum_hash: record.ethereum_hash,
                    raw_transaction: record.raw_transaction,
                    retries: 0,
                    block_number: None,
                };
                let ghost before = self@;
                let mut records = Vec::new();
                std::mem::swap(&mut records, &mut self.records);
                records.push(stored);
                proof {
                    let after = records@.map_values(|r: PendingRecord| r@);
                    assert(after =~= before.push(fresh(record@)));
                    assert forall|i: int, j: int|
                        0 <= i < after.len() && 0 <= j < after.len() && i != j implies (
                    #[trigger] after[i]).ethereum_hash != (#[trigger] after[j]).ethereum_hash by {
                        if i < before.len() {
                            assert(!holds_at(before, record@.ethereum_hash, i));
                        }
                        if j < before.len() {
                            assert(!holds_at(before, record@.ethereum_hash, j));
                        }
                    }
                }
                self.records = records;
                Ok(())
            },
        }
    }

    /// Adds one to the retries of the record with the given hash and returns the
    /// new count. Fails with `NotFound` when no record has the hash, and with
    /// `MaxRetriesExceeded` when the counter is at the largest value it can hold;
    /// either way nothing changes.
    pub fn increment_retries(&mut self, hash: &Hash256) -> (r: Result<u8, StoreError>)
        ensures
            (final(self)@, r) == increment_spec(old(self)@, hash@),
            unique_hashes(old(self)@),
            unique_hashes(final(self)@),
    {
        match self.position(hash) {
            None => Err(StoreError::NotFound),
            Some(i) => {
                if self.records[i].retries == u8::MAX {
                    return Err(StoreError::MaxRetriesExceeded);
                }
                let ghost before = self@;
                let mut records = Vec::new();
                std::mem::swap(&mut records, &mut self.records);
                let mut record = records.remove(i);
                let next: u8 = record.retries + 1;
                record.retries = next;
                records.insert(i, record);
                proof {
                    let after = records@.map_values(|r: PendingRecord| r@);
                    assert(after =~= before.update(
                        i as int,
                        RecordView { retries: next, ..before[i as int] },
                    ));
                    lemma_update_keeps_hashes(
                        before,
                        i as int,
                        RecordView { retries: next, ..before[i as int] },
                    );
                }
                self.records = records;
                Ok(next)
            },
        }
    }

    /// Records that the transaction with the given hash was included in block
    /// `block_number`. A second call with the same block changes nothing and
    /// succeeds; one with another block fails with `Conflict`; an unknown hash
    /// fails with `NotFound`.
    pub fn mark_mined(&mut self, hash: &Hash256, block_number: u64) -> (r: Result<(), StoreError>)
        ensures
            (final(self)@, r) == mark_mined_spec(old(self)@, hash@, block_number),
            unique_hashes(old(self)@),
            unique_hashes(final(self)@),
    {
        match self.position(hash) {
            None => Err(StoreError::NotFound),
            Some(i) => {
                match self.records[i].block_number {
                    Some(known) => {
                        if known == block_number {
                            Ok(())
                        } else {
                            Err(StoreError::Conflict)
                        }
                    },
                    None => {
                        let ghost before = self@;
                        let mut records = Vec::new();
                        std::mem::swap(&mut records, &mut self.records);
                        let mut record = records.remove(i);
                        record.block_number = Some(block_number);
                        records.insert(i, record);
                        proof {
                            let after = records@.map_values(|r: PendingRecord| r@);
                            let changed = RecordView {
                                block_number: Some(block_number),
                                ..before[i as int]
                            };
                            assert(after =~= before.update(i as int, changed));
                            lemma_update_keeps_hashes(before, i as int, changed);
                        }
                        self.records = records;
                        Ok(())
                    },
                }
            },
        }
    }
}

/// Replacing a record by one with the same hash keeps hashes unique and every
/// hash at its position.
pub proof fn lemma_update_keeps_hashes(s: Seq<RecordView>, i: int, r: RecordView)
    requires
        unique_hashes(s),
        0 <= i < s.len(),
        r.ethereum_hash == s[i].ethereum_hash,
    ensures
        unique_hashes(s.update(i, r)),
        forall|h: Seq<u8>, k: int| holds_at(s, h, k) <==> holds_at(s.update(i, r), h, k),
        forall|h: Seq<u8>| contains(s, h) <==> contains(s.update(i, r), h),
        forall|h: Seq<u8>| contains(s, h) ==> index_of(s.update(i, r), h) == index_of(s, h),
{
    let t = s.update(i, r);
    assert forall|a: int, b: int| 0 <= a < t.len() && 0 <= b < t.len() && a != b implies (
    #[trigger] t[a]).ethereum_hash != (#[trigger] t[b]).ethereum_hash by {
        assert(t[a].ethereum_hash == s[a].ethereum_hash);
        assert(t[b].ethereum_hash == s[b].ethereum_hash);
    }
    assert forall|h: Seq<u8>, k: int| holds_at(s, h, k) <==> holds_at(t, h, k) by {
        if 0 <= k < s.len() {
            assert(t[k].ethereum_hash == s[k].ethereum_hash);
        }
    }
    assert forall|h: Seq<u8>| contains(s, h) <==> contains(t, h) by {
        if contains(s, h) {
            assert(holds_at(t, h, index_of(s, h)));
        }
        if contains(t, h) {
            assert(holds_at(s, h, index_of(t, h)));
        }
    }
    assert forall|h: Seq<u8>| contains(s, h) implies index_of(t, h) == index_of(s, h) by {
        let k = index_of(s, h);
        assert(holds_at(t, h, k));
        lemma_index_of_is_unique(t, h, k);
    }
}

} // verus!
