//! Decoding of raw signed transactions into their canonical in-memory form, and
//! the canonical hash by which clients address them.
//!
//! Parsing the envelope and recovering the signer are done by `alloy_consensus`;
//! the decisions around them (which failure is reported, what the canonical
//! transaction holds) are made here.

use crate::digest::{keccak256, keccak256_digest};
use crate::primitives::{Address, Hash256};
use alloy_consensus::crypto::secp256k1;
use alloy_consensus::{EthereumTxEnvelope, Transaction, TxEip4844};
use alloy_eips::eip2718::{Decodable2718, Encodable2718};
use alloy_primitives::{Signature, B256};
use vstd::prelude::*;

verus! {

/// Why a raw transaction was not accepted by the codec.
#[derive(Clone, Copy, Debug, PartialEq, Eq, Structural)]
pub enum CodecError {
    /// The bytes are not a transaction envelope.
    MalformedTransaction,
    /// The envelope parses, but no signer can be recovered from its signature.
    InvalidSignature,
}

/// What a parsed envelope holds, before its signature has been checked.
#[derive(Clone, Debug)]
pub struct DecodedEnvelope {
    pub chain_id: Option<u64>,
    pub nonce: u64,
    pub gas_limit: u64,
    pub max_fee_per_gas: u128,
    pub max_priority_fee_per_gas: Option<u128>,
    pub to: Option<Address>,
    /// The transferred amount, as a 256-bit big-endian integer.
    pub value: [u8; 32],
    pub input: Vec<u8>,
    /// The canonical encoding of the signed envelope.
    pub encoding: Vec<u8>,
    /// The digest that the signer signed.
    pub signing_hash: [u8; 32],
    /// The signature as `r`, `s` (32 big-endian bytes each) and the parity byte.
    pub signature: [u8; 65],
}

pub ghost struct EnvelopeView {
    pub chain_id: Option<u64>,
    pub nonce: u64,
    pub gas_limit: u64,
    pub max_fee_per_gas: u128,
    pub max_priority_fee_per_gas: Option<u128>,
    pub to: Option<Seq<u8>>,
    pub value: Seq<u8>,
    pub input: Seq<u8>,
    pub encoding: Seq<u8>,
    pub signing_hash: Seq<u8>,
    pub signature: Seq<u8>,
}

pub open spec fn address_view(a: Option<Address>) -> Option<Seq<u8>> {
    match a {
        Some(a) => Some(a@),
        None => None,
    }
}

impl View for DecodedEnvelope {
    type V = EnvelopeView;

    open spec fn view(&self) -> EnvelopeView {
        EnvelopeView {
            chain_id: self.chain_id,
            nonce: self.nonce,
            gas_limit: self.gas_limit,
            max_fee_per_gas: self.max_fee_per_gas,
            max_priority_fee_per_gas: self.max_priority_fee_per_gas,
            to: address_view(self.to),
            value: self.value@,
            input: self.input@,
            encoding: self.encoding@,
            signing_hash: self.signing_hash@,
            signature: self.signature@,
        }
    }
}

/// A decoded transaction whose signer has been recovered. Its fields cannot be
/// changed after construction.
#[derive(Clone, Debug)]
pub struct CanonicalTransaction {
    sender: Address,
    chain_id: Option<u64>,
    nonce: u64,
    gas_limit: u64,
    max_fee_per_gas: u128,
    max_priority_fee_per_gas: Option<u128>,
    to: Option<Address>,
    value: [u8; 32],
    input: Vec<u8>,
    encoding: Vec<u8>,
}

pub ghost struct TxView {
    pub sender: Seq<u8>,
    pub chain_id: Option<u64>,
    pub nonce: u64,
    pub gas_limit: u64,
    pub max_fee_per_gas: u128,
    pub max_priority_fee_per_gas: Option<u128>,
    pub to: Option<Seq<u8>>,
    pub value: Seq<u8>,
    pub input: Seq<u8>,
    pub encoding: Seq<u8>,
}

impl View for CanonicalTransaction {
    type V = TxView;

    closed spec fn view(&self) -> TxView {
        TxView {
            sender: self.sender@,
            chain_id: self.chain_id,
            nonce: self.nonce,
            gas_limit: self.gas_limit,
            max_fee_per_gas: self.max_fee_per_gas,
            max_priority_fee_per_gas: self.max_priority_fee_per_gas,
            to: address_view(self.to),
            value: self.value@,
            input: self.input@,
            encoding: self.encoding@,
        }
    }
}

/// The envelope that `alloy_consensus` parses from the given bytes, if any.
pub uninterp spec fn envelope_of(raw: Seq<u8>) -> Option<EnvelopeView>;

/// The address that `alloy_consensus` recovers from a signature over a digest,
/// if any.
pub uninterp spec fn signer_of(signature: Seq<u8>, prehash: Seq<u8>) -> Option<Seq<u8>>;

/// Calls `decode_2718_exact` of `EthereumTxEnvelope<TxEip4844>`, which accepts
/// one envelope (a blob transaction only without its sidecar) and no trailing
/// bytes, and copies out of the envelope what its accessors return. The contract
/// only names the outcome: it is a function of the bytes alone.
#[verifier::external_body]
fn parse_envelope(raw: &[u8]) -> (parsed: Option<DecodedEnvelope>)
    ensures
        parsed matches Some(e) ==> envelope_of(raw@) == Some(e@),
        parsed is None ==> envelope_of(raw@) is None,
{
    let tx = EthereumTxEnvelope::<TxEip4844>::decode_2718_exact(raw).ok()?;
    Some(DecodedEnvelope {
        chain_id: tx.chain_id(),
        nonce: tx.nonce(),
        gas_limit: tx.gas_limit(),
        max_fee_per_gas: tx.max_fee_per_gas(),
        max_priority_fee_per_gas: tx.max_priority_fee_per_gas(),
        to: tx.to().map(|a| Address { bytes: a.0.0 }),
        value: tx.value().to_be_bytes(),
        input: tx.input().to_vec(),
        encoding: tx.encoded_2718(),
        signing_hash: tx.signature_hash().0,
        signature: tx.signature().as_rsy(),
    })
}

/// Calls `alloy_consensus::crypto::secp256k1::recover_signer`, which refuses a
/// signature whose `s` lies in the upper half of the curve order and otherwise
/// recovers the signing address. The contract only names the outcome: it is a
/// function of the signature and the digest alone.
#[verifier::external_body]
fn recover_signer(signature: &[u8; 65], prehash: &[u8; 32]) -> (signer: Option<Address>)
    ensures
        signer matches Some(a) ==> signer_of(signature@, prehash@) == Some(a@),
        signer is None ==> signer_of(signature@, prehash@) is None,
{
    let signature = Signature::from_raw_array(signature).ok()?;
    let signer = secp256k1::recover_signer(&signature, B256::new(*prehash)).ok()?;
    Some(Address { bytes: signer.0.0 })
}

/// The transaction that an envelope and its recovered signer make up.
pub open spec fn sealed(envelope: EnvelopeView, sender: Seq<u8>) -> TxView {
    TxView {
        sender,
        chain_id: envelope.chain_id,
        nonce: envelope.nonce,
        gas_limit: envelope.gas_limit,
        max_fee_per_gas: envelope.max_fee_per_gas,
        max_priority_fee_per_gas: envelope.max_priority_fee_per_gas,
        to: envelope.to,
        value: envelope.value,
        input: envelope.input,
        encoding: envelope.encoding,
    }
}

/// What sealing returns for an envelope and the outcome of signer recovery.
pub open spec fn seal_spec(envelope: EnvelopeView, signer: Option<Seq<u8>>) -> Result<
    TxView,
    CodecError,
> {
    match signer {
        Some(sender) => Ok(sealed(envelope, sender)),
        None => Err(CodecError::InvalidSignature),
    }
}

/// What decoding returns for the given raw bytes.
pub open spec fn decode_spec(raw: Seq<u8>) -> Result<TxView, CodecError> {
    match envelope_of(raw) {
        None => Err(CodecError::MalformedTransaction),
        Some(envelope) => seal_spec(envelope, signer_of(envelope.signature, envelope.signing_hash)),
    }
}

/// The canonical hash of a transaction: the Keccak-256 digest of its canonical
/// encoding.
pub open spec fn hash_spec(tx: TxView) -> Seq<u8> {
    keccak256_digest(tx.encoding)
}

/// `result` is the transaction or the error that `expected` describes.
pub open spec fn decoded_as(
    result: Result<CanonicalTransaction, CodecError>,
    expected: Result<TxView, CodecError>,
) -> bool {
    match result {
        Ok(tx) => expected == Ok::<TxView, CodecError>(tx@),
        Err(e) => expected == Err::<TxView, CodecError>(e),
    }
}

/// Joins a parsed envelope with the outcome of signer recovery: with a signer the
/// canonical transaction, without one `InvalidSignature`.
pub fn seal(envelope: DecodedEnvelope, signer: Option<Address>) -> (result: Result<
    CanonicalTransaction,
    CodecError,
>)
    ensures
        decoded_as(result, seal_spec(envelope@, address_view(signer))),
{
    match signer {
        None => Err(CodecError::InvalidSignature),
        Some(sender) => Ok(
            CanonicalTransaction {
                sender,
                chain_id: envelope.chain_id,
                nonce: envelope.nonce,
                gas_limit: envelope.gas_limit,
                max_fee_per_gas: envelope.max_fee_per_gas,
                max_priority_fee_per_gas: envelope.max_priority_fee_per_gas,
                to: envelope.to,
                value: envelope.value,
                input: envelope.input,
                encoding: envelope.encoding,
            },
        ),
    }
}

/// Decodes a raw signed transaction. Fails with `MalformedTransaction` when the
/// bytes are not exactly one envelope, and with `InvalidSignature` when the
/// envelope parses but no signer can be recovered.
pub fn decode(raw: &[u8]) -> (result: Result<CanonicalTransaction, CodecError>)
    ensures
        decoded_as(result, decode_spec(raw@)),
{
    match parse_envelope(raw) {
        None => Err(CodecError::MalformedTransaction),
        Some(envelope) => {
            let signer = recover_signer(&envelope.signature, &envelope.signing_hash);
            seal(envelope, signer)
        },
    }
}

/// The canonical hash of a transaction.
pub fn hash(tx: &CanonicalTransaction) -> (h: Hash256)
    ensures
        h@ == hash_spec(tx@),
{
    keccak256(tx.encoding.as_slice())
}

impl CanonicalTransaction {
    pub fn sender(&self) -> (r: Address)
        ensures
            r@ == self@.sender,
    {
        self.sender
    }

    pub fn chain_id(&self) -> (r: Option<u64>)
        ensures
            r == self@.chain_id,
    {
        self.chain_id
    }

    pub fn nonce(&self) -> (r: u64)
        ensures
            r == self@.nonce,
    {
        self.nonce
    }

    pub fn gas_limit(&self) -> (r: u64)
        ensures
            r == self@.gas_limit,
    {
        self.gas_limit
    }

    pub fn max_fee_per_gas(&self) -> (r: u128)
        ensures
            r == self@.max_fee_per_gas,
    {
        self.max_fee_per_gas
    }

    pub fn max_priority_fee_per_gas(&self) -> (r: Option<u128>)
        ensures
            r == self@.max_priority_fee_per_gas,
    {
        self.max_priority_fee_per_gas
    }

    pub fn to(&self) -> (r: Option<Address>)
        ensures
            address_view(r) == self@.to,
    {
        self.to
    }

    pub fn value(&self) -> (r: [u8; 32])
        ensures
            r@ == self@.value,
    {
        self.value
    }

    pub fn input(&self) -> (r: &[u8])
        ensures
            r@ == self@.input,
    {
        self.input.as_slice()
    }

    /// The canonical encoding of the signed envelope.
    pub fn encoding(&self) -> (r: &[u8])
        ensures
            r@ == self@.encoding,
    {
        self.encoding.as_slice()
    }
}

} // verus!
