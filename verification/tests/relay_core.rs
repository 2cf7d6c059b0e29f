use alloy_consensus::crypto::secp256k1::sign_message;
use alloy_consensus::{SignableTransaction, TxEip1559, TxEnvelope, TxLegacy};
use alloy_eips::eip2718::Encodable2718;
use alloy_primitives::{keccak256, Address as EvmAddress, Bytes, Signature, TxKind, B256, U256};
use kakarot_rpc::codec::{decode, hash, seal, CanonicalTransaction, CodecError, DecodedEnvelope};
use kakarot_rpc::primitives::{address_from_word, Address, Hash256};
use kakarot_rpc::relay::{
    RelayEngine, RelayRejected, ResubmitError, SubmitError, TransactionState,
};
use kakarot_rpc::resolver::{resolve, ResolveError};
use kakarot_rpc::store::{PendingRecord, PendingStore, StoreError};
use kakarot_rpc::test_utils::execution::{TestExecutionLayer, TestExecutionLayerBuilder};
use kakarot_rpc::translation::{
    build_payload, encode_payload, payload_hash, ExecutionPayload, HEADER_LEN,
};

const CHAIN_ID: u64 = 0x4b4b_5254;

fn secret() -> B256 {
    B256::new([0x11; 32])
}

fn destination() -> EvmAddress {
    EvmAddress::new([0xa1; 20])
}

fn eip1559(nonce: u64, value: u64) -> TxEip1559 {
    TxEip1559 {
        chain_id: CHAIN_ID,
        nonce,
        gas_limit: 21000,
        to: TxKind::Call(destination()),
        value: U256::from(value),
        input: Bytes::default(),
        max_fee_per_gas: 875_000_000,
        max_priority_fee_per_gas: 0,
        access_list: Default::default(),
    }
}

/// A signed transaction: its raw bytes, its hash and its signer, all as the
/// signing library gives them.
fn signed(nonce: u64, value: u64) -> (Vec<u8>, [u8; 32], [u8; 20]) {
    let tx = eip1559(nonce, value);
    let signing_hash = tx.signature_hash();
    let signature = sign_message(secret(), signing_hash).unwrap();
    let signer = signature.recover_address_from_prehash(&signing_hash).unwrap();
    let envelope: TxEnvelope = tx.into_signed(signature).into();
    (envelope.encoded_2718(), envelope.tx_hash().0, signer.0 .0)
}

fn with_signature(nonce: u64, signature: Signature) -> Vec<u8> {
    let envelope: TxEnvelope = eip1559(nonce, 1000).into_signed(signature).into();
    envelope.encoded_2718()
}

/// A canonical transaction made without a signature, told apart by `tag`.
fn transaction(tag: u8) -> CanonicalTransaction {
    let envelope = DecodedEnvelope {
        chain_id: Some(CHAIN_ID),
        nonce: tag as u64,
        gas_limit: 21000,
        max_fee_per_gas: 875_000_000,
        max_priority_fee_per_gas: Some(0),
        to: Some(Address::new([0xa1; 20])),
        value: [0u8; 32],
        input: vec![],
        encoding: vec![2, tag, tag],
        signing_hash: [tag; 32],
        signature: [tag; 65],
    };
    seal(envelope, Some(Address::new([0x5e; 20]))).unwrap()
}

fn record(tag: u8) -> PendingRecord {
    let raw_transaction = transaction(tag);
    PendingRecord {
        ethereum_hash: hash(&raw_transaction),
        raw_transaction,
        retries: 0,
        block_number: None,
    }
}

fn key(tag: u8) -> Hash256 {
    hash(&transaction(tag))
}

fn rejected(reason: &str) -> RelayRejected {
    RelayRejected { reason: reason.to_string() }
}

fn accepting() -> TestExecutionLayer {
    TestExecutionLayerBuilder::new().chain_id(CHAIN_ID).build()
}

fn refusing(reason: &str) -> TestExecutionLayer {
    TestExecutionLayerBuilder::new().chain_id(CHAIN_ID).refusing(reason.to_string()).build()
}

/// Submits `raw` to an execution layer that accepts.
fn submit(engine: &mut RelayEngine, raw: &[u8]) -> Result<Hash256, SubmitError> {
    kakarot_rpc::test_utils::execution::submit(engine, &mut accepting(), raw)
}

fn resubmit(engine: &mut RelayEngine, ethereum_hash: &Hash256) -> Result<Hash256, ResubmitError> {
    kakarot_rpc::test_utils::execution::resubmit(engine, &mut accepting(), ethereum_hash)
}

// ---- primitives ----

#[test]
fn hashes_compare_by_bytes() {
    let mut other = [7u8; 32];
    assert_eq!(Hash256::new([7; 32]), Hash256::new(other));
    assert!(Hash256::new([7; 32]).same(&Hash256::new(other)));
    other[31] = 8;
    assert_ne!(Hash256::new([7; 32]), Hash256::new(other));
    assert!(!Hash256::new([7; 32]).same(&Hash256::new(other)));
    other[31] = 7;
    other[0] = 0;
    assert_ne!(Hash256::new([7; 32]), Hash256::new(other));
}

#[test]
fn addresses_compare_by_bytes() {
    let mut other = [3u8; 20];
    assert_eq!(Address::new([3; 20]), Address::new(other));
    other[19] = 4;
    assert_ne!(Address::new([3; 20]), Address::new(other));
    assert!(!Address::new([3; 20]).same(&Address::new(other)));
}

#[test]
fn address_is_the_last_twenty_bytes_of_a_word() {
    let mut word = [0u8; 32];
    for (i, b) in word.iter_mut().enumerate() {
        *b = i as u8;
    }
    let address = address_from_word(&word);
    let expected: Vec<u8> = (12u8..32).collect();
    assert_eq!(address.bytes.to_vec(), expected);
}

// ---- codec ----

#[test]
fn decode_reads_every_field_of_an_eip1559_transaction() {
    let (raw, _, signer) = signed(0, 1000);
    let tx = decode(&raw).unwrap();
    assert_eq!(tx.sender(), Address::new(signer));
    assert_eq!(tx.chain_id(), Some(CHAIN_ID));
    assert_eq!(tx.nonce(), 0);
    assert_eq!(tx.gas_limit(), 21000);
    assert_eq!(tx.max_fee_per_gas(), 875_000_000);
    assert_eq!(tx.max_priority_fee_per_gas(), Some(0));
    assert_eq!(tx.to(), Some(Address::new([0xa1; 20])));
    let mut value = [0u8; 32];
    value[30] = 0x03;
    value[31] = 0xe8;
    assert_eq!(tx.value(), value);
    assert!(tx.input().is_empty());
    assert_eq!(tx.encoding(), &raw[..]);
}

#[test]
fn decode_reads_input_and_nonce() {
    let mut tx = eip1559(7, 1);
    tx.input = Bytes::from(vec![0xde, 0xad, 0xbe, 0xef]);
    tx.to = TxKind::Create;
    let signature = sign_message(secret(), tx.signature_hash()).unwrap();
    let envelope: TxEnvelope = tx.into_signed(signature).into();
    let decoded = decode(&envelope.encoded_2718()).unwrap();
    assert_eq!(decoded.nonce(), 7);
    assert_eq!(decoded.to(), None);
    assert_eq!(decoded.input(), &[0xde, 0xad, 0xbe, 0xef]);
}

#[test]
fn decode_accepts_a_legacy_transaction() {
    let tx = TxLegacy {
        chain_id: Some(CHAIN_ID),
        nonce: 3,
        gas_price: 5,
        gas_limit: 21000,
        to: TxKind::Call(destination()),
        value: U256::from(9),
        input: Bytes::default(),
    };
    let signing_hash = tx.signature_hash();
    let signature = sign_message(secret(), signing_hash).unwrap();
    let signer = signature.recover_address_from_prehash(&signing_hash).unwrap();
    let envelope: TxEnvelope = tx.into_signed(signature).into();
    let decoded = decode(&envelope.encoded_2718()).unwrap();
    assert_eq!(decoded.sender(), Address::new(signer.0 .0));
    assert_eq!(decoded.max_fee_per_gas(), 5);
    assert_eq!(decoded.max_priority_fee_per_gas(), None);
    assert_eq!(hash(&decoded), Hash256::new(envelope.tx_hash().0));
}

#[test]
fn canonical_hash_is_the_signers_hash() {
    let (raw, tx_hash, _) = signed(0, 1000);
    let tx = decode(&raw).unwrap();
    assert_eq!(hash(&tx), Hash256::new(tx_hash));
    assert_eq!(hash(&tx), Hash256::new(keccak256(&raw).0));
    assert_eq!(hash(&tx), hash(&decode(&raw).unwrap()));
}

#[test]
fn decode_rejects_bytes_that_are_no_envelope() {
    assert_eq!(decode(&[]).unwrap_err(), CodecError::MalformedTransaction);
    assert_eq!(decode(&[0x02]).unwrap_err(), CodecError::MalformedTransaction);
    assert_eq!(decode(&[0xff, 0x00, 0x01]).unwrap_err(), CodecError::MalformedTransaction);
    let (raw, _, _) = signed(0, 1000);
    assert_eq!(decode(&raw[..raw.len() - 1]).unwrap_err(), CodecError::MalformedTransaction);
}

#[test]
fn decode_rejects_trailing_bytes() {
    let (mut raw, _, _) = signed(0, 1000);
    raw.push(0);
    assert_eq!(decode(&raw).unwrap_err(), CodecError::MalformedTransaction);
}

#[test]
fn decode_rejects_a_signature_without_signer() {
    let raw = with_signature(0, Signature::new(U256::ZERO, U256::ZERO, false));
    assert_eq!(decode(&raw).unwrap_err(), CodecError::InvalidSignature);
}

#[test]
fn decode_rejects_a_signature_with_high_s() {
    let tx = eip1559(0, 1000);
    let signature = sign_message(secret(), tx.signature_hash()).unwrap();
    let order = U256::from_be_bytes([
        0xff, 0xff, 0xff, 0xff, 0xff, 0xff, 0xff, 0xff, 0xff, 0xff, 0xff, 0xff, 0xff, 0xff, 0xff,
        0xfe, 0xba, 0xae, 0xdc, 0xe6, 0xaf, 0x48, 0xa0, 0x3b, 0xbf, 0xd2, 0x5e, 0x8c, 0xd0, 0x36,
        0x41, 0x41,
    ]);
    let mirrored = Signature::new(signature.r(), order - signature.s(), !signature.v());
    assert_eq!(decode(&with_signature(0, mirrored)).unwrap_err(), CodecError::InvalidSignature);
    assert!(decode(&with_signature(0, signature)).is_ok());
}

#[test]
fn seal_needs_a_signer() {
    let envelope = DecodedEnvelope {
        chain_id: None,
        nonce: 1,
        gas_limit: 2,
        max_fee_per_gas: 3,
        max_priority_fee_per_gas: None,
        to: None,
        value: [4; 32],
        input: vec![5],
        encoding: vec![6, 7],
        signing_hash: [8; 32],
        signature: [9; 65],
    };
    assert_eq!(seal(envelope.clone(), None).unwrap_err(), CodecError::InvalidSignature);
    let tx = seal(envelope, Some(Address::new([1; 20]))).unwrap();
    assert_eq!(tx.sender(), Address::new([1; 20]));
    assert_eq!(tx.chain_id(), None);
    assert_eq!(tx.nonce(), 1);
    assert_eq!(tx.gas_limit(), 2);
    assert_eq!(tx.max_fee_per_gas(), 3);
    assert_eq!(tx.max_priority_fee_per_gas(), None);
    assert_eq!(tx.to(), None);
    assert_eq!(tx.value(), [4; 32]);
    assert_eq!(tx.input(), &[5]);
    assert_eq!(tx.encoding(), &[6, 7]);
}

// ---- translation ----

#[test]
fn payload_carries_the_retry_in_max_fee() {
    let (raw, _, signer) = signed(4, 1000);
    let tx = decode(&raw).unwrap();
    let payload = build_payload(&tx, 3);
    assert_eq!(payload.sender, Address::new(signer));
    assert_eq!(payload.nonce, 4);
    assert_eq!(payload.max_fee, 3);
    assert_eq!(payload.chain_id, Some(CHAIN_ID));
    assert_eq!(payload.calldata, raw);
    let again = build_payload(&tx, 255);
    assert_eq!(again.max_fee, 255);
    assert_eq!(again.sender, payload.sender);
    assert_eq!(again.nonce, payload.nonce);
    assert_eq!(again.chain_id, payload.chain_id);
    assert_eq!(again.calldata, payload.calldata);
}

#[test]
fn payload_encoding_is_laid_out_field_by_field() {
    let payload = ExecutionPayload {
        sender: Address::new([0xaa; 20]),
        nonce: 1,
        max_fee: 0x0102,
        chain_id: Some(3),
        calldata: vec![9, 8, 7],
    };
    let mut expected = vec![0xaau8; 20];
    expected.extend_from_slice(&[1, 0, 0, 0, 0, 0, 0, 0]);
    expected.extend_from_slice(&[2, 1, 0, 0, 0, 0, 0, 0]);
    expected.extend_from_slice(&[1]);
    expected.extend_from_slice(&[3, 0, 0, 0, 0, 0, 0, 0]);
    expected.extend_from_slice(&[9, 8, 7]);
    assert_eq!(encode_payload(&payload), expected);
    assert_eq!(expected.len(), HEADER_LEN + 3);
}

#[test]
fn payload_encoding_marks_a_missing_chain_id() {
    let payload = ExecutionPayload {
        sender: Address::new([0; 20]),
        nonce: u64::MAX,
        max_fee: 0,
        chain_id: None,
        calldata: vec![],
    };
    let mut expected = vec![0u8; 20];
    expected.extend_from_slice(&[0xff; 8]);
    expected.extend_from_slice(&[0; 8]);
    expected.extend_from_slice(&[0; 9]);
    assert_eq!(encode_payload(&payload), expected);
    assert_eq!(expected.len(), HEADER_LEN);
    let zero = ExecutionPayload { chain_id: Some(0), ..payload.clone() };
    assert_ne!(encode_payload(&zero), encode_payload(&payload));
}

#[test]
fn payload_hash_is_the_keccak_digest_of_the_encoding() {
    let payload = ExecutionPayload {
        sender: Address::new([0xaa; 20]),
        nonce: 1,
        max_fee: 2,
        chain_id: Some(3),
        calldata: vec![9, 8, 7],
    };
    let encoded = encode_payload(&payload);
    assert_eq!(payload_hash(&payload), Hash256::new(keccak256(&encoded).0));
    assert_ne!(payload_hash(&payload).bytes.to_vec(), encoded);
}

#[test]
fn derive_twice_gives_the_same_payload_and_hash() {
    let (raw, _, _) = signed(0, 1000);
    let tx = decode(&raw).unwrap();
    for retry in [0u8, 1, 2, 17, 255] {
        let (first_payload, first_hash) = kakarot_rpc::translation::derive(&tx, retry);
        let (second_payload, second_hash) = kakarot_rpc::translation::derive(&tx, retry);
        assert_eq!(first_hash, second_hash);
        assert_eq!(encode_payload(&first_payload), encode_payload(&second_payload));
        assert_eq!(first_hash, payload_hash(&build_payload(&tx, retry)));
    }
}

#[test]
fn derive_tells_retries_apart() {
    let (raw, _, _) = signed(0, 1000);
    let tx = decode(&raw).unwrap();
    let (zero_payload, zero_hash) = kakarot_rpc::translation::derive(&tx, 0);
    let (one_payload, one_hash) = kakarot_rpc::translation::derive(&tx, 1);
    assert_ne!(zero_payload.max_fee, one_payload.max_fee);
    assert_ne!(encode_payload(&zero_payload), encode_payload(&one_payload));
    assert_ne!(zero_hash, one_hash);
}

// ---- store ----

#[test]
fn new_store_is_empty() {
    let store = PendingStore::new();
    assert_eq!(store.len(), 0);
    assert!(store.get(&key(1)).is_none());
    assert!(store.get_oldest().is_none());
    assert!(!store.contains(&key(1)));
}

#[test]
fn insert_then_get() {
    let mut store = PendingStore::new();
    assert_eq!(store.insert(record(1)), Ok(()));
    assert_eq!(store.insert(record(2)), Ok(()));
    assert_eq!(store.len(), 2);
    assert!(store.contains(&key(2)));
    let found = store.get(&key(2)).unwrap();
    assert_eq!(found.ethereum_hash, key(2));
    assert_eq!(found.raw_transaction.nonce(), 2);
    assert_eq!(found.retries, 0);
    assert_eq!(found.block_number, None);
    assert!(store.get(&key(3)).is_none());
}

#[test]
fn insert_stores_at_zero_retries_and_unconfirmed() {
    let mut store = PendingStore::new();
    let mut given = record(1);
    given.retries = 9;
    given.block_number = Some(4);
    assert_eq!(store.insert(given), Ok(()));
    let found = store.get(&key(1)).unwrap();
    assert_eq!(found.retries, 0);
    assert_eq!(found.block_number, None);
}

#[test]
fn insert_rejects_a_duplicate_hash() {
    let mut store = PendingStore::new();
    assert_eq!(store.insert(record(1)), Ok(()));
    assert_eq!(store.increment_retries(&key(1)), Ok(1));
    assert_eq!(store.insert(record(1)), Err(StoreError::Duplicate));
    assert_eq!(store.len(), 1);
    assert_eq!(store.get(&key(1)).unwrap().retries, 1);
}

#[test]
fn get_oldest_goes_by_insertion_not_by_hash() {
    let mut store = PendingStore::new();
    for tag in [9u8, 3, 5] {
        assert_eq!(store.insert(record(tag)), Ok(()));
    }
    assert_eq!(store.get_oldest().unwrap().ethereum_hash, key(9));
    assert_eq!(store.mark_mined(&key(9), 1), Ok(()));
    assert_eq!(store.get_oldest().unwrap().ethereum_hash, key(3));
    assert_eq!(store.mark_mined(&key(5), 2), Ok(()));
    assert_eq!(store.get_oldest().unwrap().ethereum_hash, key(3));
    assert_eq!(store.mark_mined(&key(3), 2), Ok(()));
    assert!(store.get_oldest().is_none());
    assert_eq!(store.len(), 3);
}

#[test]
fn increment_retries_adds_one_and_returns_the_count() {
    let mut store = PendingStore::new();
    assert_eq!(store.insert(record(1)), Ok(()));
    assert_eq!(store.insert(record(2)), Ok(()));
    assert_eq!(store.increment_retries(&key(1)), Ok(1));
    assert_eq!(store.increment_retries(&key(1)), Ok(2));
    assert_eq!(store.increment_retries(&key(1)), Ok(3));
    assert_eq!(store.get(&key(1)).unwrap().retries, 3);
    assert_eq!(store.get(&key(2)).unwrap().retries, 0);
    assert_eq!(store.get(&key(1)).unwrap().raw_transaction.nonce(), 1);
    assert_eq!(store.get_oldest().unwrap().ethereum_hash, key(1));
}

#[test]
fn increment_retries_of_an_unknown_hash() {
    let mut store = PendingStore::new();
    assert_eq!(store.increment_retries(&key(1)), Err(StoreError::NotFound));
    assert_eq!(store.insert(record(2)), Ok(()));
    assert_eq!(store.increment_retries(&key(1)), Err(StoreError::NotFound));
    assert_eq!(store.get(&key(2)).unwrap().retries, 0);
}

#[test]
fn increment_retries_stops_at_the_largest_count() {
    let mut store = PendingStore::new();
    assert_eq!(store.insert(record(1)), Ok(()));
    for expected in 1..=255u8 {
        assert_eq!(store.increment_retries(&key(1)), Ok(expected));
    }
    assert_eq!(store.increment_retries(&key(1)), Err(StoreError::MaxRetriesExceeded));
    assert_eq!(store.get(&key(1)).unwrap().retries, 255);
}

#[test]
fn mark_mined_is_one_way() {
    let mut store = PendingStore::new();
    assert_eq!(store.insert(record(1)), Ok(()));
    assert_eq!(store.mark_mined(&key(1), 42), Ok(()));
    assert_eq!(store.get(&key(1)).unwrap().block_number, Some(42));
    assert_eq!(store.mark_mined(&key(1), 42), Ok(()));
    assert_eq!(store.get(&key(1)).unwrap().block_number, Some(42));
    assert_eq!(store.mark_mined(&key(1), 43), Err(StoreError::Conflict));
    assert_eq!(store.get(&key(1)).unwrap().block_number, Some(42));
    assert_eq!(store.increment_retries(&key(1)), Ok(1));
    assert_eq!(store.mark_mined(&key(1), 0), Err(StoreError::Conflict));
    assert_eq!(store.mark_mined(&key(1), 42), Ok(()));
    assert_eq!(store.get(&key(1)).unwrap().retries, 1);
}

#[test]
fn mark_mined_of_an_unknown_hash() {
    let mut store = PendingStore::new();
    assert_eq!(store.mark_mined(&key(1), 42), Err(StoreError::NotFound));
    assert_eq!(store.len(), 0);
}

#[test]
fn mark_mined_accepts_block_zero() {
    let mut store = PendingStore::new();
    assert_eq!(store.insert(record(1)), Ok(()));
    assert_eq!(store.mark_mined(&key(1), 0), Ok(()));
    assert_eq!(store.get(&key(1)).unwrap().block_number, Some(0));
    assert_eq!(store.mark_mined(&key(1), 1), Err(StoreError::Conflict));
}

// ---- relay engine and resolver ----

#[test]
fn test_kakarot_get_starknet_transaction_hash() {
    let mut katana = accepting();
    let mut engine = RelayEngine::new(3);
    let chain_id = katana.chain_id();

    // Create a sample transaction
    let transaction = TxEip1559 {
        chain_id,
        nonce: 0,
        gas_limit: 21000,
        to: TxKind::Call(destination()),
        value: U256::from(1000),
        input: Bytes::default(),
        max_fee_per_gas: 875_000_000,
        max_priority_fee_per_gas: 0,
        access_list: Default::default(),
    };

    // Sign the transaction
    let signature = sign_message(secret(), transaction.signature_hash()).unwrap();
    let transaction_signed: TxEnvelope = transaction.into_signed(signature).into();
    let raw = transaction_signed.encoded_2718();
    let tx_hash = transaction_signed.tx_hash().0;

    // Send the transaction
    let tx_return = kakarot_rpc::test_utils::execution::submit(&mut engine, &mut katana, &raw)
        .expect("failed to send transaction");
    assert_eq!(katana.accepted_count(), 1);

    let tx = engine.store().get_oldest().expect("Failed to get transaction");
    assert_eq!(0, tx.retries);
    assert_eq!(tx.ethereum_hash, Hash256::new(tx_hash));
    assert!(tx.block_number.is_none());
    assert_eq!(tx.raw_transaction.nonce(), 0);
    assert_eq!(tx.raw_transaction.to(), Some(Address::new([0xa1; 20])));

    let hash = tx.ethereum_hash;
    let retries: u8 = 0;
    let resolved = resolve(engine.store(), &hash, retries).unwrap();
    assert_eq!(resolved, tx_return);
    assert_eq!(format!("{:?}", resolved), format!("{:?}", tx_return));
}

#[test]
fn begin_submit_translates_at_retry_zero() {
    let engine = RelayEngine::new(3);
    let (raw, tx_hash, _) = signed(0, 1000);
    let submission = engine.begin_submit(&raw).unwrap();
    let tx = decode(&raw).unwrap();
    let (payload, expected) = kakarot_rpc::translation::derive(&tx, 0);
    assert_eq!(submission.ethereum_hash(), Hash256::new(tx_hash));
    assert_eq!(submission.hash(), expected);
    assert_eq!(submission.payload().max_fee, 0);
    assert_eq!(encode_payload(submission.payload()), encode_payload(&payload));
    assert_eq!(submission.transaction().encoding(), &raw[..]);
    assert_eq!(engine.store().len(), 0);
}

#[test]
fn submit_returns_what_the_execution_layer_reported() {
    let mut engine = RelayEngine::new(3);
    let (raw, tx_hash, _) = signed(0, 1000);
    let submission = engine.begin_submit(&raw).unwrap();
    let reported = Hash256::new([0x77; 32]);
    assert_eq!(engine.finish_submit(submission, Ok(reported)), Ok(reported));
    assert!(engine.store().contains(&Hash256::new(tx_hash)));
    assert!(!engine.store().contains(&reported));
}

#[test]
fn submit_rejects_malformed_bytes_and_stores_nothing() {
    let mut engine = RelayEngine::new(3);
    assert_eq!(submit(&mut engine, &[1, 2, 3]), Err(SubmitError::MalformedTransaction));
    assert_eq!(submit(&mut engine, &[]), Err(SubmitError::MalformedTransaction));
    assert_eq!(engine.store().len(), 0);
}

#[test]
fn submit_rejects_an_invalid_signature_and_stores_nothing() {
    let mut engine = RelayEngine::new(3);
    let raw = with_signature(0, Signature::new(U256::ZERO, U256::ZERO, true));
    assert_eq!(submit(&mut engine, &raw), Err(SubmitError::InvalidSignature));
    assert_eq!(engine.store().len(), 0);
}

#[test]
fn submitting_twice_is_already_known() {
    let mut engine = RelayEngine::new(3);
    let (raw, tx_hash, _) = signed(0, 1000);
    assert!(submit(&mut engine, &raw).is_ok());
    assert_eq!(submit(&mut engine, &raw), Err(SubmitError::AlreadyKnown));
    assert_eq!(engine.store().len(), 1);
    assert_eq!(engine.store().get(&Hash256::new(tx_hash)).unwrap().retries, 0);
    let (other, _, _) = signed(1, 1000);
    assert!(submit(&mut engine, &other).is_ok());
    assert_eq!(engine.store().len(), 2);
}

#[test]
fn finishing_one_submission_twice_is_already_known() {
    let mut engine = RelayEngine::new(3);
    let (raw, _, _) = signed(0, 1000);
    let submission = engine.begin_submit(&raw).unwrap();
    let again = submission.clone();
    let accepted = submission.hash();
    assert_eq!(engine.finish_submit(submission, Ok(accepted)), Ok(accepted));
    assert_eq!(engine.finish_submit(again, Ok(accepted)), Err(SubmitError::AlreadyKnown));
    assert_eq!(engine.store().len(), 1);
}

#[test]
fn a_rejected_submission_is_never_pending() {
    let mut engine = RelayEngine::new(3);
    let (raw, tx_hash, _) = signed(0, 1000);
    let submission = engine.begin_submit(&raw).unwrap();
    assert_eq!(
        engine.finish_submit(submission, Err(rejected("nonce too low"))),
        Err(SubmitError::RelayRejected { reason: "nonce too low".to_string() })
    );
    assert_eq!(engine.store().len(), 0);
    assert!(engine.store().get(&Hash256::new(tx_hash)).is_none());
    assert!(submit(&mut engine, &raw).is_ok());
}

#[test]
fn resolve_of_a_hash_never_submitted() {
    let mut engine = RelayEngine::new(3);
    assert_eq!(resolve(engine.store(), &key(1), 0), Err(ResolveError::NotFound));
    let (raw, _, _) = signed(0, 1000);
    assert!(submit(&mut engine, &raw).is_ok());
    assert_eq!(resolve(engine.store(), &key(1), 0), Err(ResolveError::NotFound));
    assert_eq!(resolve(engine.store(), &Hash256::new([0; 32]), 5), Err(ResolveError::NotFound));
}

#[test]
fn resolve_predicts_retries_that_were_never_submitted() {
    let mut engine = RelayEngine::new(3);
    let (raw, tx_hash, _) = signed(0, 1000);
    assert!(submit(&mut engine, &raw).is_ok());
    let ethereum_hash = Hash256::new(tx_hash);
    let tx = decode(&raw).unwrap();
    for retry in [0u8, 1, 2, 200] {
        let (_, expected) = kakarot_rpc::translation::derive(&tx, retry);
        assert_eq!(resolve(engine.store(), &ethereum_hash, retry), Ok(expected));
    }
    assert_eq!(engine.store().get(&ethereum_hash).unwrap().retries, 0);
}

#[test]
fn resubmit_counts_retries() {
    let mut engine = RelayEngine::new(5);
    let (raw, tx_hash, _) = signed(0, 1000);
    assert!(submit(&mut engine, &raw).is_ok());
    let ethereum_hash = Hash256::new(tx_hash);
    for n in 1..=5u8 {
        let predicted = resolve(engine.store(), &ethereum_hash, n).unwrap();
        let resubmission = engine.begin_resubmit(&ethereum_hash).unwrap();
        assert_eq!(resubmission.retry(), n);
        assert_eq!(resubmission.ethereum_hash(), ethereum_hash);
        assert_eq!(resubmission.payload().max_fee, n as u64);
        assert_eq!(resubmission.hash(), predicted);
        assert_eq!(RelayEngine::finish_resubmit(Ok(resubmission.hash())), Ok(predicted));
        assert_eq!(engine.store().get(&ethereum_hash).unwrap().retries, n);
    }
}

#[test]
fn resubmit_after_the_retries_are_used_up() {
    let mut engine = RelayEngine::new(2);
    let (raw, tx_hash, _) = signed(0, 1000);
    assert!(submit(&mut engine, &raw).is_ok());
    let ethereum_hash = Hash256::new(tx_hash);
    assert!(resubmit(&mut engine, &ethereum_hash).is_ok());
    assert!(resubmit(&mut engine, &ethereum_hash).is_ok());
    assert_eq!(resubmit(&mut engine, &ethereum_hash), Err(ResubmitError::MaxRetriesExceeded));
    assert_eq!(engine.store().get(&ethereum_hash).unwrap().retries, 2);
    assert_eq!(resubmit(&mut engine, &ethereum_hash), Err(ResubmitError::MaxRetriesExceeded));
    assert_eq!(engine.store().get(&ethereum_hash).unwrap().retries, 2);
    assert_eq!(engine.max_retries(), 2);
}

#[test]
fn resubmit_with_no_retries_allowed() {
    let mut engine = RelayEngine::new(0);
    let (raw, tx_hash, _) = signed(0, 1000);
    assert!(submit(&mut engine, &raw).is_ok());
    let ethereum_hash = Hash256::new(tx_hash);
    assert_eq!(resubmit(&mut engine, &ethereum_hash), Err(ResubmitError::MaxRetriesExceeded));
    assert_eq!(engine.store().get(&ethereum_hash).unwrap().retries, 0);
}

#[test]
fn resubmit_up_to_the_largest_cap() {
    let mut engine = RelayEngine::new(255);
    let (raw, tx_hash, _) = signed(0, 1000);
    assert!(submit(&mut engine, &raw).is_ok());
    let ethereum_hash = Hash256::new(tx_hash);
    for _ in 0..255 {
        assert!(resubmit(&mut engine, &ethereum_hash).is_ok());
    }
    assert_eq!(resubmit(&mut engine, &ethereum_hash), Err(ResubmitError::MaxRetriesExceeded));
    assert_eq!(engine.store().get(&ethereum_hash).unwrap().retries, 255);
}

#[test]
fn resubmit_of_an_unknown_or_confirmed_transaction() {
    let mut engine = RelayEngine::new(3);
    assert_eq!(resubmit(&mut engine, &key(1)), Err(ResubmitError::NotFound));
    let (raw, tx_hash, _) = signed(0, 1000);
    assert!(submit(&mut engine, &raw).is_ok());
    let ethereum_hash = Hash256::new(tx_hash);
    assert!(resubmit(&mut engine, &ethereum_hash).is_ok());
    assert_eq!(engine.mark_mined(&ethereum_hash, 12), Ok(()));
    assert_eq!(resubmit(&mut engine, &ethereum_hash), Err(ResubmitError::NotFound));
    assert_eq!(engine.store().get(&ethereum_hash).unwrap().retries, 1);
    assert_eq!(engine.store().get(&ethereum_hash).unwrap().block_number, Some(12));
}

#[test]
fn a_rejected_resubmission_stays_counted() {
    let mut engine = RelayEngine::new(3);
    let (raw, tx_hash, _) = signed(0, 1000);
    assert!(submit(&mut engine, &raw).is_ok());
    let ethereum_hash = Hash256::new(tx_hash);
    let resubmission = engine.begin_resubmit(&ethereum_hash).unwrap();
    assert_eq!(resubmission.retry(), 1);
    assert_eq!(
        RelayEngine::finish_resubmit(Err(rejected("fee too low"))),
        Err(ResubmitError::RelayRejected { reason: "fee too low".to_string() })
    );
    assert_eq!(engine.store().get(&ethereum_hash).unwrap().retries, 1);
    assert_eq!(engine.begin_resubmit(&ethereum_hash).unwrap().retry(), 2);
}

#[test]
fn engine_mark_mined_is_one_way() {
    let mut engine = RelayEngine::new(3);
    let (raw, tx_hash, _) = signed(0, 1000);
    assert!(submit(&mut engine, &raw).is_ok());
    let ethereum_hash = Hash256::new(tx_hash);
    assert_eq!(engine.mark_mined(&key(1), 5), Err(StoreError::NotFound));
    assert_eq!(engine.mark_mined(&ethereum_hash, 5), Ok(()));
    assert_eq!(engine.mark_mined(&ethereum_hash, 5), Ok(()));
    assert_eq!(engine.mark_mined(&ethereum_hash, 6), Err(StoreError::Conflict));
    assert_eq!(engine.store().get(&ethereum_hash).unwrap().block_number, Some(5));
    assert!(engine.store().get_oldest().is_none());
}

#[test]
fn state_follows_the_record() {
    let mut engine = RelayEngine::new(3);
    let (raw, tx_hash, _) = signed(0, 1000);
    let ethereum_hash = Hash256::new(tx_hash);
    assert_eq!(engine.state(&ethereum_hash), None);
    assert!(submit(&mut engine, &raw).is_ok());
    assert_eq!(engine.state(&ethereum_hash), Some(TransactionState::Submitted));
    assert!(resubmit(&mut engine, &ethereum_hash).is_ok());
    assert_eq!(engine.state(&ethereum_hash), Some(TransactionState::Resubmitted { retries: 1 }));
    assert!(resubmit(&mut engine, &ethereum_hash).is_ok());
    assert_eq!(engine.state(&ethereum_hash), Some(TransactionState::Resubmitted { retries: 2 }));
    assert_eq!(engine.mark_mined(&ethereum_hash, 8), Ok(()));
    assert_eq!(engine.state(&ethereum_hash), Some(TransactionState::Confirmed { block_number: 8 }));
}

// ---- the in-memory execution layer ----

#[test]
fn builder_defaults_to_an_accepting_layer_on_chain_zero() {
    let mut layer = TestExecutionLayerBuilder::new().build();
    assert_eq!(layer.chain_id(), 0);
    assert_eq!(layer.accepted_count(), 0);
    let payload = build_payload(&transaction(1), 0);
    assert_eq!(layer.submit(&payload), Ok(payload_hash(&payload)));
    assert_eq!(layer.accepted_count(), 1);
    assert_eq!(TestExecutionLayerBuilder::new().chain_id(7).build().chain_id(), 7);
}

#[test]
fn refusing_layer_gives_its_reason_and_logs_nothing() {
    let mut layer = refusing("out of funds");
    assert_eq!(layer.chain_id(), CHAIN_ID);
    let payload = build_payload(&transaction(1), 0);
    assert_eq!(layer.submit(&payload), Err(rejected("out of funds")));
    assert_eq!(layer.submit(&payload), Err(rejected("out of funds")));
    assert_eq!(layer.accepted_count(), 0);
}

#[test]
fn submit_to_a_refusing_layer_stores_nothing() {
    let mut engine = RelayEngine::new(3);
    let mut layer = refusing("out of funds");
    let (raw, _, _) = signed(0, 1000);
    assert_eq!(
        kakarot_rpc::test_utils::execution::submit(&mut engine, &mut layer, &raw),
        Err(SubmitError::RelayRejected { reason: "out of funds".to_string() })
    );
    assert_eq!(engine.store().len(), 0);
    assert_eq!(
        kakarot_rpc::test_utils::execution::submit(&mut engine, &mut layer, &[0xc0]),
        Err(SubmitError::MalformedTransaction)
    );
}

#[test]
fn resubmit_to_a_refusing_layer_counts_the_retry() {
    let mut engine = RelayEngine::new(3);
    let (raw, tx_hash, _) = signed(0, 1000);
    assert!(submit(&mut engine, &raw).is_ok());
    let ethereum_hash = Hash256::new(tx_hash);
    let mut layer = refusing("fee too low");
    assert_eq!(
        kakarot_rpc::test_utils::execution::resubmit(&mut engine, &mut layer, &ethereum_hash),
        Err(ResubmitError::RelayRejected { reason: "fee too low".to_string() })
    );
    assert_eq!(engine.store().get(&ethereum_hash).unwrap().retries, 1);
    let accepted = resubmit(&mut engine, &ethereum_hash).unwrap();
    assert_eq!(resolve(engine.store(), &ethereum_hash, 2), Ok(accepted));
    assert_eq!(engine.store().get(&ethereum_hash).unwrap().retries, 2);
}

#[test]
fn submit_returns_the_hash_that_resolution_gives_at_retry_zero() {
    let mut engine = RelayEngine::new(3);
    let mut layer = accepting();
    for nonce in 0..4u64 {
        let (raw, tx_hash, _) = signed(nonce, 1000 + nonce);
        let returned =
            kakarot_rpc::test_utils::execution::submit(&mut engine, &mut layer, &raw).unwrap();
        assert_eq!(resolve(engine.store(), &Hash256::new(tx_hash), 0), Ok(returned));
    }
    assert_eq!(engine.store().len(), 4);
    assert_eq!(layer.accepted_count(), 4);
    let (first, first_hash, _) = signed(0, 1000);
    let expected = kakarot_rpc::translation::derive(&decode(&first).unwrap(), 0).1;
    assert_eq!(resolve(engine.store(), &Hash256::new(first_hash), 0), Ok(expected));
}
