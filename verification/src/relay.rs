//! The relay engine: the decisions of submission and resubmission.
//!
//! Talking to the execution layer is the caller's part. Each operation is
//! therefore split in two steps around that exchange: `begin_*` decides what is
//! to be sent, and `finish_*` takes what the execution layer answered and
//! decides what is stored and returned. Nothing is held locked between the two.

use crate::codec::{decode, decode_spec, hash, hash_spec, CanonicalTransaction, CodecError, TxView};
use crate::primitives::Hash256;
use crate::store::{
    contains, increment_spec, lookup, mark_mined_spec, unique_hashes, PendingRecord, PendingStore,
    RecordView, StoreError,
};
use crate::translation::{derived_hash, payload_spec, ExecutionPayload, PayloadView};
use vstd::prelude::*;

verus! {

/// The execution layer's refusal of a payload.
#[derive(Clone, Debug, PartialEq, Eq)]
pub struct RelayRejected {
    pub reason: String,
}

/// Why a submission failed.
#[derive(Clone, Debug, PartialEq, Eq)]
pub enum SubmitError {
    /// The raw bytes are not a transaction envelope.
    MalformedTransaction,
    /// No signer can be recovered from the transaction's signature.
    InvalidSignature,
    /// A transaction with the same canonical hash is already stored.
    AlreadyKnown,
    /// The execution layer refused the payload; nothing was stored.
    RelayRejected { reason: String },
}

/// Why a resubmission failed.
#[derive(Clone, Debug, PartialEq, Eq)]
pub enum ResubmitError {
    /// No pending transaction has the given hash: it was never stored, or it is
    /// already confirmed.
    NotFound,
    /// The transaction has used up its retries and is abandoned.
    MaxRetriesExceeded,
    /// The execution layer refused the payload of this attempt.
    RelayRejected { reason: String },
}

/// Where a stored transaction stands. A pending transaction whose retries are
/// used up has no state of its own in the store: the resubmission that finds it
/// so reports it as abandoned, with `ResubmitError::MaxRetriesExceeded`.
#[derive(Clone, Copy, Debug, PartialEq, Eq, Structural)]
pub enum TransactionState {
    /// Submitted once, never resubmitted.
    Submitted,
    /// Resubmitted the given number of times.
    Resubmitted { retries: u8 },
    /// Included in the given block.
    Confirmed { block_number: u64 },
}

/// A submission that has been decided and awaits the execution layer's answer.
#[derive(Clone, Debug)]
pub struct Submission {
    ethereum_hash: Hash256,
    transaction: CanonicalTransaction,
    payload: ExecutionPayload,
    hash: Hash256,
}

pub ghost struct SubmissionView {
    pub ethereum_hash: Seq<u8>,
    pub transaction: TxView,
    pub payload: PayloadView,
    pub hash: Seq<u8>,
}

impl View for Submission {
    type V = SubmissionView;

    closed spec fn view(&self) -> SubmissionView {
        SubmissionView {
            ethereum_hash: self.ethereum_hash@,
            transaction: self.transaction@,
            payload: self.payload@,
            hash: self.hash@,
        }
    }
}

/// A resubmission that has been decided and awaits the execution layer's answer.
#[derive(Clone, Debug)]
pub struct Resubmission {
    ethereum_hash: Hash256,
    retry: u8,
    payload: ExecutionPayload,
    hash: Hash256,
}

pub ghost struct ResubmissionView {
    pub ethereum_hash: Seq<u8>,
    pub retry: u8,
    pub payload: PayloadView,
    pub hash: Seq<u8>,
}

impl View for Resubmission {
    type V = ResubmissionView;

    closed spec fn view(&self) -> ResubmissionView {
        ResubmissionView {
            ethereum_hash: self.ethereum_hash@,
            retry: self.retry,
            payload: self.payload@,
            hash: self.hash@,
        }
    }
}

/// The first attempt at a transaction: its canonical hash, and the payload and
/// execution-layer hash at retry index 0.
pub open spec fn first_attempt(tx: TxView) -> SubmissionView {
    SubmissionView {
        ethereum_hash: hash_spec(tx),
        transaction: tx,
        payload: payload_spec(tx, 0),
        hash: derived_hash(tx, 0),
    }
}

/// What the first step of a submission decides for the given raw bytes.
pub open spec fn begin_submit_spec(s: Seq<RecordView>, raw: Seq<u8>) -> Result<
    SubmissionView,
    SubmitError,
> {
    match decode_spec(raw) {
        Err(CodecError::MalformedTransaction) => Err(SubmitError::MalformedTransaction),
        Err(CodecError::InvalidSignature) => Err(SubmitError::InvalidSignature),
        Ok(tx) => if contains(s, hash_spec(tx)) {
            Err(SubmitError::AlreadyKnown)
        } else {
            Ok(first_attempt(tx))
        },
    }
}

/// The record that an accepted submission stores.
pub open spec fn record_of(submission: SubmissionView) -> RecordView {
    RecordView {
        ethereum_hash: submission.ethereum_hash,
        raw_transaction: submission.transaction,
        retries: 0,
        block_number: None,
    }
}

/// The store and the outcome after the execution layer has answered a
/// submission. A refusal stores nothing. An acceptance stores the record and
/// returns the hash that the execution layer reported.
pub open spec fn finish_submit_spec(
    s: Seq<RecordView>,
    submission: SubmissionView,
    outcome: Result<Seq<u8>, String>,
) -> (Seq<RecordView>, Result<Seq<u8>, SubmitError>) {
    match outcome {
        Err(reason) => (s, Err(SubmitError::RelayRejected { reason })),
        Ok(accepted) => if contains(s, submission.ethereum_hash) {
            (s, Err(SubmitError::AlreadyKnown))
        } else {
            (s.push(record_of(submission)), Ok(accepted))
        },
    }
}

/// A whole submission: both steps, with the execution layer's answer to the
/// payload given as `outcome`.
pub open spec fn submit_spec(
    s: Seq<RecordView>,
    raw: Seq<u8>,
    outcome: Result<Seq<u8>, String>,
) -> (Seq<RecordView>, Result<Seq<u8>, SubmitError>) {
    match begin_submit_spec(s, raw) {
        Err(e) => (s, Err(e)),
        Ok(submission) => finish_submit_spec(s, submission, outcome),
    }
}

/// The store and the decision of the first step of a resubmission.
pub open spec fn begin_resubmit_spec(s: Seq<RecordView>, cap: u8, h: Seq<u8>) -> (
    Seq<RecordView>,
    Result<ResubmissionView, ResubmitError>,
) {
    match lookup(s, h) {
        None => (s, Err(ResubmitError::NotFound)),
        Some(record) => if record.block_number is Some {
            (s, Err(ResubmitError::NotFound))
        } else if record.retries >= cap {
            (s, Err(ResubmitError::MaxRetriesExceeded))
        } else {
            let retry = (record.retries + 1) as u8;
            (
                increment_spec(s, h).0,
                Ok(
                    ResubmissionView {
                        ethereum_hash: h,
                        retry,
                        payload: payload_spec(record.raw_transaction, retry),
                        hash: derived_hash(record.raw_transaction, retry),
                    },
                ),
            )
        },
    }
}

/// What a resubmission returns once the execution layer has answered.
pub open spec fn finish_resubmit_spec(outcome: Result<Seq<u8>, String>) -> Result<
    Seq<u8>,
    ResubmitError,
> {
    match outcome {
        Ok(accepted) => Ok(accepted),
        Err(reason) => Err(ResubmitError::RelayRejected { reason }),
    }
}

/// Where a record stands.
pub open spec fn state_of(record: RecordView) -> TransactionState {
    match record.block_number {
        Some(block_number) => TransactionState::Confirmed { block_number },
        None => if record.retries == 0 {
            TransactionState::Submitted
        } else {
            TransactionState::Resubmitted { retries: record.retries }
        },
    }
}

/// The execution layer's answer, with the hash as its bytes.
pub open spec fn outcome_view(outcome: Result<Hash256, RelayRejected>) -> Result<Seq<u8>, String> {
    match outcome {
        Ok(h) => Ok(h@),
        Err(rejected) => Err(rejected.reason),
    }
}

/// `result` is the hash or the error that `expected` describes.
pub open spec fn returns_hash<E>(result: Result<Hash256, E>, expected: Result<Seq<u8>, E>) -> bool {
    match result {
        Ok(h) => expected == Ok::<Seq<u8>, E>(h@),
        Err(e) => expected == Err::<Seq<u8>, E>(e),
    }
}

impl Submission {
    /// The canonical hash under which the transaction will be stored.
    pub fn ethereum_hash(&self) -> (r: Hash256)
        ensures
            r@ == self@.ethereum_hash,
    {
        self.ethereum_hash
    }

    pub fn transaction(&self) -> (r: &CanonicalTransaction)
        ensures
            r@ == self@.transaction,
    {
        &self.transaction
    }

    /// What is to be handed to the execution layer.
    pub fn payload(&self) -> (r: &ExecutionPayload)
        ensures
            r@ == self@.payload,
    {
        &self.payload
    }

    /// The hash that translation gives the payload.
    pub fn hash(&self) -> (r: Hash256)
        ensures
            r@ == self@.hash,
    {
        self.hash
    }
}

impl Resubmission {
    pub fn ethereum_hash(&self) -> (r: Hash256)
        ensures
            r@ == self@.ethereum_hash,
    {
        self.ethereum_hash
    }

    /// The retry index of this attempt.
    pub fn retry(&self) -> (r: u8)
        ensures
            r == self@.retry,
    {
        self.retry
    }

    /// What is to be handed to the execution layer.
    pub fn payload(&self) -> (r: &ExecutionPayload)
        ensures
            r@ == self@.payload,
    {
        &self.payload
    }

    /// The hash that translation gives the payload.
    pub fn hash(&self) -> (r: Hash256)
        ensures
            r@ == self@.hash,
    {
        self.hash
    }
}

/// The relay engine: the pending store and the retry policy.
pub struct RelayEngine {
    store: PendingStore,
    max_retries: u8,
}

impl RelayEngine {
    /// The stored records, in the order of insertion.
    pub closed spec fn records(&self) -> Seq<RecordView> {
        self.store@
    }

    /// The configured maximum number of resubmissions per transaction.
    pub closed spec fn cap(&self) -> u8 {
        self.max_retries
    }

    /// An engine with an empty store and the given retry cap.
    pub fn new(max_retries: u8) -> (engine: RelayEngine)
        ensures
            engine.records() == Seq::<RecordView>::empty(),
            engine.cap() == max_retries,
    {
        RelayEngine { store: PendingStore::new(), max_retries }
    }

    pub fn max_retries(&self) -> (r: u8)
        ensures
            r == self.cap(),
    {
        self.max_retries
    }

    /// The pending store, for reading.
    pub fn store(&self) -> (r: &PendingStore)
        ensures
            r@ == self.records(),
            unique_hashes(self.records()),
    {
        self.store.hashes_are_unique();
        &self.store
    }

    /// First step of a submission: decodes the raw transaction, refuses one that
    /// is already stored, and translates it at retry index 0. Changes nothing.
    pub fn begin_submit(&self, raw: &[u8]) -> (r: Result<Submission, SubmitError>)
        ensures
            unique_hashes(self.records()),
            match r {
                Ok(submission) => begin_submit_spec(self.records(), raw@) == Ok::<
                    SubmissionView,
                    SubmitError,
                >(submission@),
                Err(e) => begin_submit_spec(self.records(), raw@) == Err::<
                    SubmissionView,
                    SubmitError,
                >(e),
            },
    {
        self.store.hashes_are_unique();
        match decode(raw) {
            Err(CodecError::MalformedTransaction) => Err(SubmitError::MalformedTransaction),
            Err(CodecError::InvalidSignature) => Err(SubmitError::InvalidSignature),
            Ok(transaction) => {
                let ethereum_hash = hash(&transaction);
                if self.store.contains(&ethereum_hash) {
                    Err(SubmitError::AlreadyKnown)
                } else {
                    let (payload, hash) = crate::translation::derive(&transaction, 0);
                    Ok(Submission { ethereum_hash, transaction, payload, hash })
                }
            },
        }
    }

    /// Second step of a submission, with the execution layer's answer. A refusal
    /// is reported as `RelayRejected` and stores nothing. An acceptance stores
    /// the record under the canonical hash and returns the hash that the
    /// execution layer reported; if the transaction was stored in the meantime,
    /// `AlreadyKnown` is returned and the store is left as it is.
    pub fn finish_submit(
        &mut self,
        submission: Submission,
        outcome: Result<Hash256, RelayRejected>,
    ) -> (r: Result<Hash256, SubmitError>)
        ensures
            final(self).cap() == old(self).cap(),
            unique_hashes(old(self).records()),
            unique_hashes(final(self).records()),
            returns_hash(
                r,
                finish_submit_spec(old(self).records(), submission@, outcome_view(outcome)).1,
            ),
            final(self).records() == finish_submit_spec(
                old(self).records(),
                submission@,
                outcome_view(outcome),
            ).0,
            r matches Ok(h) ==> outcome == Ok::<Hash256, RelayRejected>(h),
    {
        match outcome {
            Err(rejected) => {
                self.store.hashes_are_unique();
                Err(SubmitError::RelayRejected { reason: rejected.reason })
            },
            Ok(accepted) => {
                let record = PendingRecord {
                    ethereum_hash: submission.ethereum_hash,
                    raw_transaction: submission.transaction,
                    retries: 0,
                    block_number: None,
                };
                match self.store.insert(record) {
                    Ok(()) => Ok(accepted),
                    Err(_) => Err(SubmitError::AlreadyKnown),
                }
            },
        }
    }

    /// First step of a resubmission. Fails with `NotFound` when no record has
    /// the hash or the transaction is confirmed, and with `MaxRetriesExceeded`
    /// when its retries have reached the cap; neither changes the store.
    /// Otherwise increments the retries and translates the stored transaction
    /// at the new retry index.
    pub fn begin_resubmit(&mut self, ethereum_hash: &Hash256) -> (r: Result<
        Resubmission,
        ResubmitError,
    >)
        ensures
            final(self).cap() == old(self).cap(),
            unique_hashes(old(self).records()),
            unique_hashes(final(self).records()),
            final(self).records() == begin_resubmit_spec(
                old(self).records(),
                old(self).cap(),
                ethereum_hash@,
            ).0,
            match r {
                Ok(resubmission) => begin_resubmit_spec(
                    old(self).records(),
                    old(self).cap(),
                    ethereum_hash@,
                ).1 == Ok::<ResubmissionView, ResubmitError>(resubmission@),
                Err(e) => begin_resubmit_spec(
                    old(self).records(),
                    old(self).cap(),
                    ethereum_hash@,
                ).1 == Err::<ResubmissionView, ResubmitError>(e),
            },
    {
        let (retry, payload, hash) = match self.store.get(ethereum_hash) {
            None => {
                return Err(ResubmitError::NotFound);
            },
            Some(record) => {
                if record.block_number.is_some() {
                    return Err(ResubmitError::NotFound);
                }
                if record.retries >= self.max_retries {
                    return Err(ResubmitError::MaxRetriesExceeded);
                }
                let retry: u8 = record.retries + 1;
                let (payload, hash) = crate::translation::derive(&record.raw_transaction, retry);
                (retry, payload, hash)
            },
        };
        match self.store.increment_retries(ethereum_hash) {
            Ok(_) => Ok(Resubmission { ethereum_hash: *ethereum_hash, retry, payload, hash }),
            Err(_) => Err(ResubmitError::NotFound),
        }
    }

    /// Second step of a resubmission, with the execution layer's answer: the hash
    /// that it reported, or its refusal as `RelayRejected`. The retry stays
    /// counted either way.
    pub fn finish_resubmit(outcome: Result<Hash256, RelayRejected>) -> (r: Result<
        Hash256,
        ResubmitError,
    >)
        ensures
            returns_hash(r, finish_resubmit_spec(outcome_view(outcome))),
            r matches Ok(h) ==> outcome == Ok::<Hash256, RelayRejected>(h),
    {
        match outcome {
            Ok(accepted) => Ok(accepted),
            Err(rejected) => Err(ResubmitError::RelayRejected { reason: rejected.reason }),
        }
    }

    /// Records the block that included a transaction; see
    /// `PendingStore::mark_mined`.
    pub fn mark_mined(&mut self, ethereum_hash: &Hash256, block_number: u64) -> (r: Result<
        (),
        StoreError,
    >)
        ensures
            final(self).cap() == old(self).cap(),
            unique_hashes(final(self).records()),
            (final(self).records(), r) == mark_mined_spec(
                old(self).records(),
                ethereum_hash@,
                block_number,
            ),
    {
        self.store.mark_mined(ethereum_hash, block_number)
    }

    /// Where the transaction with the given hash stands, if it is stored.
    pub fn state(&self, ethereum_hash: &Hash256) -> (r: Option<TransactionState>)
        ensures
            r == match lookup(self.records(), ethereum_hash@) {
                Some(record) => Some(state_of(record)),
                None => None,
            },
    {
        match self.store.get(ethereum_hash) {
            None => None,
            Some(record) => match record.block_number {
                Some(block_number) => Some(TransactionState::Confirmed { block_number }),
                None => if record.retries == 0 {
                    Some(TransactionState::Submitted)
                } else {
                    Some(TransactionState::Resubmitted { retries: record.retries })
                },
            },
        }
    }
}

} // verus!
