//! A stand-in for the execution layer, for tests: it answers every payload at
//! once, either accepting it under the hash that translation gives it or
//! refusing it with a fixed reason. With it a submission or resubmission runs
//! from start to end in one call.

use crate::codec::{decode_spec, hash_spec};
use crate::digest::keccak256_digest;
use crate::laws::{lemma_push_keeps_hashes, lemma_resolution_predicts_resubmission};
use crate::primitives::Hash256;
use crate::relay::{
    begin_resubmit_spec, finish_resubmit_spec, first_attempt, outcome_view, record_of,
    returns_hash, submit_spec, RelayEngine, RelayRejected, ResubmitError, SubmitError,
};
use crate::resolver::{resolve_spec, ResolveError};
use crate::store::lemma_index_of_is_unique;
use crate::translation::{encode_spec, payload_hash, ExecutionPayload, PayloadView};
use vstd::prelude::*;

verus! {

/// An execution layer that lives in memory.
pub struct TestExecutionLayer {
    chain_id: u64,
    refusal: Option<String>,
    accepted: Vec<Hash256>,
}

/// Builds a `TestExecutionLayer`. Unless told otherwise, the layer has chain
/// identifier 0 and accepts every payload.
pub struct TestExecutionLayerBuilder {
    chain_id: u64,
    refusal: Option<String>,
}

impl TestExecutionLayerBuilder {
    pub closed spec fn chain(&self) -> u64 {
        self.chain_id
    }

    pub closed spec fn refusal(&self) -> Option<String> {
        self.refusal
    }

    pub fn new() -> (builder: TestExecutionLayerBuilder)
        ensures
            builder.chain() == 0,
            builder.refusal() is None,
    {
        TestExecutionLayerBuilder { chain_id: 0, refusal: None }
    }

    /// Sets the chain identifier that the layer reports.
    pub fn chain_id(self, chain_id: u64) -> (builder: TestExecutionLayerBuilder)
        ensures
            builder.chain() == chain_id,
            builder.refusal() == self.refusal(),
    {
        TestExecutionLayerBuilder { chain_id, refusal: self.refusal }
    }

    /// Makes the layer refuse every payload with the given reason.
    pub fn refusing(self, reason: String) -> (builder: TestExecutionLayerBuilder)
        ensures
            builder.chain() == self.chain(),
            builder.refusal() == Some(reason),
    {
        TestExecutionLayerBuilder { chain_id: self.chain_id, refusal: Some(reason) }
    }

    pub fn build(self) -> (layer: TestExecutionLayer)
        ensures
            layer.chain() == self.chain(),
            layer.refusal() == self.refusal(),
            layer.accepted() == Seq::<Seq<u8>>::empty(),
    {
        let layer = TestExecutionLayer {
            chain_id: self.chain_id,
            refusal: self.refusal,
            accepted: Vec::new(),
        };
        assert(layer.accepted() =~= Seq::<Seq<u8>>::empty());
        layer
    }
}

impl TestExecutionLayer {
    pub closed spec fn chain(&self) -> u64 {
        self.chain_id
    }

    /// The reason with which every payload is refused, if any.
    pub closed spec fn refusal(&self) -> Option<String> {
        self.refusal
    }

    /// The hashes of the payloads accepted so far, oldest first.
    pub closed spec fn accepted(&self) -> Seq<Seq<u8>> {
        self.accepted@.map_values(|h: Hash256| h@)
    }

    /// What the layer answers to a payload.
    pub open spec fn answer(&self, payload: PayloadView) -> Result<Seq<u8>, String> {
        match self.refusal() {
            Some(reason) => Err(reason),
            None => Ok(keccak256_digest(encode_spec(payload))),
        }
    }

    pub fn chain_id(&self) -> (r: u64)
        ensures
            r == self.chain(),
    {
        self.chain_id
    }

    /// How many payloads the layer has accepted.
    pub fn accepted_count(&self) -> (r: usize)
        ensures
            r == self.accepted().len(),
    {
        self.accepted.len()
    }

    /// Takes a payload and answers it. An accepted payload is logged under its
    /// hash; a refused one leaves no trace.
    pub fn submit(&mut self, payload: &ExecutionPayload) -> (r: Result<Hash256, RelayRejected>)
        ensures
            outcome_view(r) == old(self).answer(payload@),
            final(self).chain() == old(self).chain(),
            final(self).refusal() == old(self).refusal(),
            final(self).accepted() == match r {
                Ok(h) => old(self).accepted().push(h@),
                Err(_) => old(self).accepted(),
            },
    {
        match &self.refusal {
            Some(reason) => Err(RelayRejected { reason: reason.clone() }),
            None => {
                let h = payload_hash(payload);
                self.accepted.push(h);
                assert(self.accepted() =~= old(self).accepted().push(h@));
                Ok(h)
            },
        }
    }
}

/// Submits a raw transaction to the test layer: decodes and translates it, hands
/// the payload over, and stores the record if the layer accepts. The hash
/// returned is the one that resolving the transaction at retry index 0 gives
/// afterwards.
pub fn submit(engine: &mut RelayEngine, layer: &mut TestExecutionLayer, raw: &[u8]) -> (r: Result<
    Hash256,
    SubmitError,
>)
    ensures
        final(engine).cap() == old(engine).cap(),
        final(layer).chain() == old(layer).chain(),
        final(layer).refusal() == old(layer).refusal(),
        ({
            let outcome = old(layer).answer(first_attempt(decode_spec(raw@)->Ok_0).payload);
            let expected = submit_spec(old(engine).records(), raw@, outcome);
            &&& final(engine).records() == expected.0
            &&& returns_hash(r, expected.1)
        }),
        r matches Ok(h) ==> resolve_spec(
            final(engine).records(),
            hash_spec(decode_spec(raw@)->Ok_0),
            0,
        ) == Ok::<Seq<u8>, ResolveError>(h@),
{
    match engine.begin_submit(raw) {
        Err(e) => Err(e),
        Ok(submission) => {
            let ghost planned = submission@;
            let ghost before = engine.records();
            let outcome = layer.submit(submission.payload());
            let r = engine.finish_submit(submission, outcome);
            proof {
                if r is Ok {
                    lemma_push_keeps_hashes(before, record_of(planned));
                    lemma_index_of_is_unique(
                        engine.records(),
                        planned.ethereum_hash,
                        before.len() as int,
                    );
                }
            }
            r
        },
    }
}

/// Resubmits a pending transaction to the test layer. A refusal by the layer is
/// reported and the retry stays counted. The hash returned is the one that
/// resolving the transaction at the new retry count gives.
pub fn resubmit(
    engine: &mut RelayEngine,
    layer: &mut TestExecutionLayer,
    ethereum_hash: &Hash256,
) -> (r: Result<Hash256, ResubmitError>)
    ensures
        final(engine).cap() == old(engine).cap(),
        final(layer).chain() == old(layer).chain(),
        final(layer).refusal() == old(layer).refusal(),
        ({
            let decided = begin_resubmit_spec(
                old(engine).records(),
                old(engine).cap(),
                ethereum_hash@,
            );
            &&& final(engine).records() == decided.0
            &&& match decided.1 {
                Err(e) => r == Err::<Hash256, ResubmitError>(e),
                Ok(attempt) => returns_hash(
                    r,
                    finish_resubmit_spec(old(layer).answer(attempt.payload)),
                ),
            }
        }),
        r matches Ok(h) ==> {
            let attempt = begin_resubmit_spec(
                old(engine).records(),
                old(engine).cap(),
                ethereum_hash@,
            ).1->Ok_0;
            resolve_spec(final(engine).records(), ethereum_hash@, attempt.retry) == Ok::<
                Seq<u8>,
                ResolveError,
            >(h@)
        },
{
    let ghost before = engine.records();
    let ghost cap = engine.cap();
    match engine.begin_resubmit(ethereum_hash) {
        Err(e) => Err(e),
        Ok(resubmission) => {
            proof {
                lemma_resolution_predicts_resubmission(before, cap, ethereum_hash@);
            }
            let outcome = layer.submit(resubmission.payload());
            RelayEngine::finish_resubmit(outcome)
        },
    }
}

} // verus!
