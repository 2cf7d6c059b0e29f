//! Translation of a canonical transaction and a retry index into the payload that
//! is handed to the execution layer, and into that payload's hash.
//!
//! The retry index is carried in the payload's `max_fee` field and changes
//! nothing else. That fee is paid by the relayer on the execution layer, so the
//! signed Ethereum transaction, which travels unchanged in `calldata`, keeps
//! its meaning on every attempt.

use crate::codec::{CanonicalTransaction, TxView};
use crate::digest::{keccak256, keccak256_digest};
use crate::primitives::{Address, Hash256};
use vstd::bytes::{spec_u64_from_le_bytes, spec_u64_to_le_bytes, u64_to_le_bytes};
use vstd::prelude::*;
use vstd::slice::slice_to_vec;

verus! {

/// The transaction that the execution layer is asked to run.
#[derive(Clone, Debug)]
pub struct ExecutionPayload {
    /// The account on whose behalf the transaction runs.
    pub sender: Address,
    pub nonce: u64,
    /// The retry index of this attempt.
    pub max_fee: u64,
    pub chain_id: Option<u64>,
    /// The canonical encoding of the signed Ethereum transaction.
    pub calldata: Vec<u8>,
}

pub ghost struct PayloadView {
    pub sender: Seq<u8>,
    pub nonce: u64,
    pub max_fee: u64,
    pub chain_id: Option<u64>,
    pub calldata: Seq<u8>,
}

impl View for ExecutionPayload {
    type V = PayloadView;

    open spec fn view(&self) -> PayloadView {
        PayloadView {
            sender: self.sender@,
            nonce: self.nonce,
            max_fee: self.max_fee,
            chain_id: self.chain_id,
            calldata: self.calldata@,
        }
    }
}

/// Number of bytes that precede the calldata in an encoded payload.
pub const HEADER_LEN: usize = 45;

/// The payload for the given attempt at a transaction.
pub open spec fn payload_spec(tx: TxView, retry: u8) -> PayloadView {
    PayloadView {
        sender: tx.sender,
        nonce: tx.nonce,
        max_fee: retry as u64,
        chain_id: tx.chain_id,
        calldata: tx.encoding,
    }
}

/// One byte that says whether a chain identifier is present, then its eight
/// bytes (zero when absent).
pub open spec fn encode_chain_id(chain_id: Option<u64>) -> Seq<u8> {
    match chain_id {
        Some(id) => seq![1u8] + spec_u64_to_le_bytes(id),
        None => seq![0u8] + spec_u64_to_le_bytes(0),
    }
}

/// The byte encoding of a payload: sender (20 bytes), nonce and max fee (eight
/// little-endian bytes each), chain identifier (nine bytes), then the calldata.
pub open spec fn encode_spec(p: PayloadView) -> Seq<u8> {
    p.sender + spec_u64_to_le_bytes(p.nonce) + spec_u64_to_le_bytes(p.max_fee) + encode_chain_id(
        p.chain_id,
    ) + p.calldata
}

/// The execution-layer hash of the given attempt: the Keccak-256 digest of the
/// encoded payload.
pub open spec fn derived_hash(tx: TxView, retry: u8) -> Seq<u8> {
    keccak256_digest(encode_spec(payload_spec(tx, retry)))
}

/// `result` is the payload and hash of the given attempt.
pub open spec fn derives(tx: TxView, retry: u8, payload: PayloadView, hash: Seq<u8>) -> bool {
    payload == payload_spec(tx, retry) && hash == derived_hash(tx, retry)
}

proof fn lemma_chain_id_len(chain_id: Option<u64>)
    ensures
        encode_chain_id(chain_id).len() == 9,
{
    vstd::bytes::lemma_auto_spec_u64_to_from_le_bytes();
}

proof fn lemma_chain_id_injective(a: Option<u64>, b: Option<u64>)
    requires
        encode_chain_id(a) == encode_chain_id(b),
    ensures
        a == b,
{
    vstd::bytes::lemma_auto_spec_u64_to_from_le_bytes();
    let ea = encode_chain_id(a);
    let eb = encode_chain_id(b);
    assert(ea[0] == (if a is Some { 1u8 } else { 0u8 }));
    assert(eb[0] == (if b is Some { 1u8 } else { 0u8 }));
    match (a, b) {
        (Some(x), Some(y)) => {
            assert(ea.subrange(1, 9) =~= spec_u64_to_le_bytes(x));
            assert(eb.subrange(1, 9) =~= spec_u64_to_le_bytes(y));
            assert(spec_u64_from_le_bytes(spec_u64_to_le_bytes(x)) == x);
            assert(spec_u64_from_le_bytes(spec_u64_to_le_bytes(y)) == y);
        },
        _ => {},
    }
}

/// The parts of an encoded payload, read back from its bytes.
proof fn lemma_encoding_parts(p: PayloadView)
    requires
        p.sender.len() == 20,
    ensures
        encode_spec(p).len() == HEADER_LEN + p.calldata.len(),
        encode_spec(p).subrange(0, 20) == p.sender,
        encode_spec(p).subrange(20, 28) == spec_u64_to_le_bytes(p.nonce),
        encode_spec(p).subrange(28, 36) == spec_u64_to_le_bytes(p.max_fee),
        encode_spec(p).subrange(36, 45) == encode_chain_id(p.chain_id),
        encode_spec(p).subrange(45, encode_spec(p).len() as int) == p.calldata,
{
    vstd::bytes::lemma_auto_spec_u64_to_from_le_bytes();
    lemma_chain_id_len(p.chain_id);
    let e = encode_spec(p);
    assert(e.subrange(0, 20) =~= p.sender);
    assert(e.subrange(20, 28) =~= spec_u64_to_le_bytes(p.nonce));
    assert(e.subrange(28, 36) =~= spec_u64_to_le_bytes(p.max_fee));
    assert(e.subrange(36, 45) =~= encode_chain_id(p.chain_id));
    assert(e.subrange(45, e.len() as int) =~= p.calldata);
}

/// Two payloads with the same encoding are the same payload.
pub proof fn lemma_encoding_is_injective(p: PayloadView, q: PayloadView)
    requires
        p.sender.len() == 20,
        q.sender.len() == 20,
        encode_spec(p) == encode_spec(q),
    ensures
        p == q,
{
    vstd::bytes::lemma_auto_spec_u64_to_from_le_bytes();
    lemma_encoding_parts(p);
    lemma_encoding_parts(q);
    lemma_chain_id_injective(p.chain_id, q.chain_id);
    assert(spec_u64_from_le_bytes(spec_u64_to_le_bytes(p.nonce)) == p.nonce);
    assert(spec_u64_from_le_bytes(spec_u64_to_le_bytes(q.nonce)) == q.nonce);
    assert(spec_u64_from_le_bytes(spec_u64_to_le_bytes(p.max_fee)) == p.max_fee);
    assert(spec_u64_from_le_bytes(spec_u64_to_le_bytes(q.max_fee)) == q.max_fee);
}

/// Two attempts at one transaction with different retry indices differ in their
/// payloads, and in the bytes whose digest is their hash.
pub proof fn lemma_retries_are_told_apart(tx: TxView, first: u8, second: u8)
    requires
        tx.sender.len() == 20,
        first != second,
    ensures
        payload_spec(tx, first) != payload_spec(tx, second),
        payload_spec(tx, first).max_fee != payload_spec(tx, second).max_fee,
        encode_spec(payload_spec(tx, first)) != encode_spec(payload_spec(tx, second)),
{
    if encode_spec(payload_spec(tx, first)) == encode_spec(payload_spec(tx, second)) {
        lemma_encoding_is_injective(payload_spec(tx, first), payload_spec(tx, second));
    }
}

/// The retry index changes the `max_fee` field of the payload and no other.
pub proof fn lemma_retry_changes_max_fee_only(tx: TxView, first: u8, second: u8)
    ensures
        payload_spec(tx, first) == (PayloadView {
            max_fee: first as u64,
            ..payload_spec(tx, second)
        }),
{
}

/// Translation is a function: whatever two calls on the same transaction and
/// retry index return, they return the same payload and the same hash.
pub proof fn lemma_derive_is_deterministic(
    tx: TxView,
    retry: u8,
    first: (PayloadView, Seq<u8>),
    second: (PayloadView, Seq<u8>),
)
    requires
        derives(tx, retry, first.0, first.1),
        derives(tx, retry, second.0, second.1),
    ensures
        first == second,
{
}

fn append(out: &mut Vec<u8>, bytes: &[u8])
    ensures
        final(out)@ == old(out)@ + bytes@,
{
    let mut i: usize = 0;
    while i < bytes.len()
        invariant
            i <= bytes@.len(),
            out@ == old(out)@ + bytes@.subrange(0, i as int),
        decreases bytes@.len() - i,
    {
        out.push(bytes[i]);
        i += 1;
        assert(out@ =~= old(out)@ + bytes@.subrange(0, i as int));
    }
    assert(bytes@.subrange(0, i as int) =~= bytes@);
}

/// Builds the payload for the given attempt at a transaction.
pub fn build_payload(tx: &CanonicalTransaction, retry: u8) -> (payload: ExecutionPayload)
    ensures
        payload@ == payload_spec(tx@, retry),
{
    ExecutionPayload {
        sender: tx.sender(),
        nonce: tx.nonce(),
        max_fee: retry as u64,
        chain_id: tx.chain_id(),
        calldata: slice_to_vec(tx.encoding()),
    }
}

/// Encodes a payload into the bytes whose digest is its hash.
pub fn encode_payload(payload: &ExecutionPayload) -> (bytes: Vec<u8>)
    ensures
        bytes@ == encode_spec(payload@),
{
    let mut out: Vec<u8> = Vec::new();
    append(&mut out, payload.sender.bytes.as_slice());
    let nonce = u64_to_le_bytes(payload.nonce);
    append(&mut out, nonce.as_slice());
    let max_fee = u64_to_le_bytes(payload.max_fee);
    append(&mut out, max_fee.as_slice());
    match payload.chain_id {
        Some(id) => {
            out.push(1u8);
            let id_bytes = u64_to_le_bytes(id);
            append(&mut out, id_bytes.as_slice());
        },
        None => {
            out.push(0u8);
            let id_bytes = u64_to_le_bytes(0);
            append(&mut out, id_bytes.as_slice());
        },
    }
    append(&mut out, payload.calldata.as_slice());
    assert(out@ =~= encode_spec(payload@));
    out
}

/// The hash of a payload: the Keccak-256 digest of its encoding.
pub fn payload_hash(payload: &ExecutionPayload) -> (hash: Hash256)
    ensures
        hash@ == keccak256_digest(encode_spec(payload@)),
{
    let bytes = encode_payload(payload);
    keccak256(bytes.as_slice())
}

/// Maps a transaction and a retry index to the execution-layer payload and its
/// hash. Total, and a function of its two arguments alone.
pub fn derive(tx: &CanonicalTransaction, retry: u8) -> (result: (ExecutionPayload, Hash256))
    ensures
        derives(tx@, retry, result.0@, result.1@),
{
    let payload = build_payload(tx, retry);
    let hash = payload_hash(&payload);
    (payload, hash)
}

} // verus!
