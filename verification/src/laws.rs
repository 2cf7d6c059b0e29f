//! What holds across operations: of every sequence of store operations, and of
//! submissions, resubmissions and resolution taken together.

use crate::codec::{decode_spec, hash_spec};
use crate::relay::{
    begin_resubmit_spec, begin_submit_spec, first_attempt, record_of, submit_spec, ResubmitError,
    SubmitError,
};
use crate::resolver::{resolve_spec, ResolveError};
use crate::store::{
    contains, fresh, holds_at, increment_spec, index_of, insert_spec, lemma_index_of_is_unique,
    lemma_update_keeps_hashes, lookup, mark_mined_spec, unique_hashes, RecordView, StoreError,
};
use crate::translation::derived_hash;
use vstd::prelude::*;

verus! {

/// An operation that changes the store.
pub ghost enum StoreOp {
    Insert(RecordView),
    IncrementRetries(Seq<u8>),
    MarkMined(Seq<u8>, u64),
}

/// The store after one operation.
pub open spec fn apply(s: Seq<RecordView>, op: StoreOp) -> Seq<RecordView> {
    match op {
        StoreOp::Insert(record) => insert_spec(s, record).0,
        StoreOp::IncrementRetries(h) => increment_spec(s, h).0,
        StoreOp::MarkMined(h, n) => mark_mined_spec(s, h, n).0,
    }
}

/// The store after a sequence of operations, the first one applied first.
pub open spec fn run(s: Seq<RecordView>, ops: Seq<StoreOp>) -> Seq<RecordView>
    decreases ops.len(),
{
    if ops.len() == 0 {
        s
    } else {
        apply(run(s, ops.drop_last()), ops.last())
    }
}

/// What an operation may do to a record: it keeps the hash and the transaction,
/// never lowers the retries, and never changes a block number once it is set.
pub open spec fn succeeds(before: RecordView, after: RecordView) -> bool {
    &&& after.ethereum_hash == before.ethereum_hash
    &&& after.raw_transaction == before.raw_transaction
    &&& after.retries >= before.retries
    &&& before.block_number is Some ==> after.block_number == before.block_number
}

/// Appending a record with a new hash keeps hashes unique and every stored
/// record at its position.
pub proof fn lemma_push_keeps_hashes(s: Seq<RecordView>, r: RecordView)
    requires
        unique_hashes(s),
        !contains(s, r.ethereum_hash),
    ensures
        unique_hashes(s.push(r)),
        holds_at(s.push(r), r.ethereum_hash, s.len() as int),
        forall|h: Seq<u8>| contains(s, h) ==> index_of(s.push(r), h) == index_of(s, h),
        forall|h: Seq<u8>| contains(s, h) ==> contains(s.push(r), h),
{
    let t = s.push(r);
    assert forall|a: int, b: int| 0 <= a < t.len() && 0 <= b < t.len() && a != b implies (
    #[trigger] t[a]).ethereum_hash != (#[trigger] t[b]).ethereum_hash by {
        if a < s.len() {
            assert(!holds_at(s, r.ethereum_hash, a));
        }
        if b < s.len() {
            assert(!holds_at(s, r.ethereum_hash, b));
        }
    }
    assert forall|h: Seq<u8>| contains(s, h) implies index_of(t, h) == index_of(s, h) && contains(
        t,
        h,
    ) by {
        let k = index_of(s, h);
        assert(holds_at(t, h, k));
        lemma_index_of_is_unique(t, h, k);
    }
}

/// Every operation keeps hashes unique.
pub proof fn lemma_apply_keeps_unique(s: Seq<RecordView>, op: StoreOp)
    requires
        unique_hashes(s),
    ensures
        unique_hashes(apply(s, op)),
{
    match op {
        StoreOp::Insert(record) => {
            if !contains(s, record.ethereum_hash) {
                lemma_push_keeps_hashes(s, fresh(record));
            }
        },
        StoreOp::IncrementRetries(h) => {
            if contains(s, h) {
                let i = index_of(s, h);
                if s[i].retries != u8::MAX {
                    lemma_update_keeps_hashes(
                        s,
                        i,
                        RecordView { retries: (s[i].retries + 1) as u8, ..s[i] },
                    );
                }
            }
        },
        StoreOp::MarkMined(h, n) => {
            if contains(s, h) {
                let i = index_of(s, h);
                if s[i].block_number is None {
                    lemma_update_keeps_hashes(s, i, RecordView { block_number: Some(n), ..s[i] });
                }
            }
        },
    }
}

/// No operation removes a record, lowers its retries, changes its transaction,
/// or changes a block number that is set.
pub proof fn lemma_apply_keeps_records(s: Seq<RecordView>, op: StoreOp, h: Seq<u8>)
    requires
        unique_hashes(s),
        contains(s, h),
    ensures
        unique_hashes(apply(s, op)),
        contains(apply(s, op), h),
        succeeds(lookup(s, h)->Some_0, lookup(apply(s, op), h)->Some_0),
{
    lemma_apply_keeps_unique(s, op);
    let k = index_of(s, h);
    assert(holds_at(s, h, k));
    match op {
        StoreOp::Insert(record) => {
            if !contains(s, record.ethereum_hash) {
                lemma_push_keeps_hashes(s, fresh(record));
            }
        },
        StoreOp::IncrementRetries(g) => {
            if contains(s, g) {
                let i = index_of(s, g);
                assert(holds_at(s, g, i));
                if s[i].retries != u8::MAX {
                    lemma_update_keeps_hashes(
                        s,
                        i,
                        RecordView { retries: (s[i].retries + 1) as u8, ..s[i] },
                    );
                }
            }
        },
        StoreOp::MarkMined(g, n) => {
            if contains(s, g) {
                let i = index_of(s, g);
                assert(holds_at(s, g, i));
                if s[i].block_number is None {
                    lemma_update_keeps_hashes(s, i, RecordView { block_number: Some(n), ..s[i] });
                }
            }
        },
    }
}

/// Retries only grow and confirmations are never undone, whatever operations
/// follow: a stored record is still stored after any sequence of operations,
/// with the same transaction, at least as many retries, and the same block
/// number if it had one.
pub proof fn lemma_run_keeps_records(s: Seq<RecordView>, ops: Seq<StoreOp>, h: Seq<u8>)
    requires
        unique_hashes(s),
        contains(s, h),
    ensures
        unique_hashes(run(s, ops)),
        contains(run(s, ops), h),
        succeeds(lookup(s, h)->Some_0, lookup(run(s, ops), h)->Some_0),
    decreases ops.len(),
{
    if ops.len() > 0 {
        lemma_run_keeps_records(s, ops.drop_last(), h);
        lemma_apply_keeps_records(run(s, ops.drop_last()), ops.last(), h);
    }
}

/// Confirmation is one-way. Once `mark_mined(h, n)` has succeeded, then after
/// any further operations on the store a `mark_mined(h, n)` succeeds and changes
/// nothing, and a `mark_mined(h, m)` with another block fails with `Conflict`
/// and changes nothing.
pub proof fn lemma_confirmation_is_one_way(
    s: Seq<RecordView>,
    h: Seq<u8>,
    n: u64,
    m: u64,
    later: Seq<StoreOp>,
)
    requires
        unique_hashes(s),
        mark_mined_spec(s, h, n).1 is Ok,
    ensures
        ({
            let t = run(mark_mined_spec(s, h, n).0, later);
            &&& lookup(t, h) is Some
            &&& lookup(t, h)->Some_0.block_number == Some(n)
            &&& mark_mined_spec(t, h, n) == (t, Ok::<(), StoreError>(()))
            &&& m != n ==> mark_mined_spec(t, h, m) == (t, Err::<(), StoreError>(
                StoreError::Conflict,
            ))
        }),
{
    let confirmed = mark_mined_spec(s, h, n).0;
    let i = index_of(s, h);
    assert(holds_at(s, h, i));
    lemma_apply_keeps_records(s, StoreOp::MarkMined(h, n), h);
    if s[i].block_number is None {
        lemma_update_keeps_hashes(s, i, RecordView { block_number: Some(n), ..s[i] });
    }
    assert(lookup(confirmed, h)->Some_0.block_number == Some(n));
    lemma_run_keeps_records(confirmed, later, h);
}

/// The store after `n` resubmissions of `h` in a row.
pub open spec fn resubmit_times(s: Seq<RecordView>, cap: u8, h: Seq<u8>, n: nat) -> Seq<
    RecordView,
>
    decreases n,
{
    if n == 0 {
        s
    } else {
        begin_resubmit_spec(resubmit_times(s, cap, h, (n - 1) as nat), cap, h).0
    }
}

/// Each of the first `n` resubmissions of `h` in a row succeeds.
pub open spec fn resubmits_succeed(s: Seq<RecordView>, cap: u8, h: Seq<u8>, n: nat) -> bool {
    forall|k: nat|
        k < n ==> (#[trigger] begin_resubmit_spec(resubmit_times(s, cap, h, k), cap, h)).1 is Ok
}

/// Retries count resubmissions. After `n` successful resubmissions the record
/// has `n` more retries than before, so `n` for a transaction that was just
/// submitted; the `n`-th of them was derived at that retry index, which is at
/// most the cap.
pub proof fn lemma_retries_count_resubmissions(
    s: Seq<RecordView>,
    cap: u8,
    h: Seq<u8>,
    n: nat,
)
    requires
        unique_hashes(s),
        contains(s, h),
        resubmits_succeed(s, cap, h, n),
    ensures
        unique_hashes(resubmit_times(s, cap, h, n)),
        contains(resubmit_times(s, cap, h, n), h),
        lookup(resubmit_times(s, cap, h, n), h)->Some_0.retries == lookup(s, h)->Some_0.retries
            + n,
        n > 0 ==> lookup(s, h)->Some_0.retries + n <= cap,
        lookup(resubmit_times(s, cap, h, n), h)->Some_0.raw_transaction == lookup(
            s,
            h,
        )->Some_0.raw_transaction,
        n > 0 ==> begin_resubmit_spec(
            resubmit_times(s, cap, h, (n - 1) as nat),
            cap,
            h,
        ).1->Ok_0.retry == lookup(s, h)->Some_0.retries + n,
    decreases n,
{
    if n > 0 {
        let k = (n - 1) as nat;
        assert(resubmits_succeed(s, cap, h, k));
        lemma_retries_count_resubmissions(s, cap, h, k);
        let t = resubmit_times(s, cap, h, k);
        assert(begin_resubmit_spec(t, cap, h).1 is Ok);
        let i = index_of(t, h);
        assert(holds_at(t, h, i));
        lemma_update_keeps_hashes(t, i, RecordView { retries: (t[i].retries + 1) as u8, ..t[i] });
    }
}

/// A resubmission that fails leaves the store as it was: in particular, one
/// that finds the retries used up reports `MaxRetriesExceeded` and does not
/// count.
pub proof fn lemma_failed_resubmission_changes_nothing(s: Seq<RecordView>, cap: u8, h: Seq<u8>)
    requires
        begin_resubmit_spec(s, cap, h).1 is Err,
    ensures
        begin_resubmit_spec(s, cap, h).0 == s,
        (lookup(s, h) matches Some(record) && record.block_number is None && record.retries >= cap)
            ==> begin_resubmit_spec(s, cap, h).1 == Err::<
            crate::relay::ResubmissionView,
            ResubmitError,
        >(ResubmitError::MaxRetriesExceeded),
{
}

/// Submitting the same raw bytes again is refused. After a submission of `raw`
/// has succeeded, the store holds one record more, exactly one of its records
/// has the transaction's hash, and a second submission of `raw` returns
/// `AlreadyKnown` and leaves the store as it is, whatever the execution layer
/// would answer.
pub proof fn lemma_duplicate_is_rejected(
    s: Seq<RecordView>,
    raw: Seq<u8>,
    first: Result<Seq<u8>, String>,
    second: Result<Seq<u8>, String>,
)
    requires
        unique_hashes(s),
        submit_spec(s, raw, first).1 is Ok,
    ensures
        ({
            let stored = submit_spec(s, raw, first).0;
            let h = hash_spec(decode_spec(raw)->Ok_0);
            &&& unique_hashes(stored)
            &&& stored.len() == s.len() + 1
            &&& holds_at(stored, h, s.len() as int)
            &&& forall|i: int| holds_at(stored, h, i) ==> i == s.len()
            &&& submit_spec(stored, raw, second) == (
                stored,
                Err::<Seq<u8>, SubmitError>(SubmitError::AlreadyKnown),
            )
        }),
{
    let tx = decode_spec(raw)->Ok_0;
    let h = hash_spec(tx);
    let submission = first_attempt(tx);
    assert(begin_submit_spec(s, raw) == Ok::<crate::relay::SubmissionView, SubmitError>(
        submission,
    ));
    let stored = submit_spec(s, raw, first).0;
    assert(stored == s.push(record_of(submission)));
    lemma_push_keeps_hashes(s, record_of(submission));
    assert forall|i: int| holds_at(stored, h, i) implies i == s.len() by {
        if i != s.len() {
            assert(stored[i].ethereum_hash != stored[s.len() as int].ethereum_hash);
        }
    }
    assert(contains(stored, h));
}

/// Resolution at retry index 0 gives the hash that submission returned. When
/// the execution layer reports, for an accepted payload, the hash that
/// translation gives it, a successful submission returns exactly what resolving
/// the transaction's canonical hash at retry index 0 returns afterwards, and
/// after any further operations on the store.
pub proof fn lemma_retry_zero_equivalence(
    s: Seq<RecordView>,
    raw: Seq<u8>,
    accepted: Seq<u8>,
    later: Seq<StoreOp>,
)
    requires
        unique_hashes(s),
        submit_spec(s, raw, Ok(accepted)).1 is Ok,
        accepted == derived_hash(decode_spec(raw)->Ok_0, 0),
    ensures
        ({
            let (stored, returned) = submit_spec(s, raw, Ok(accepted));
            let h = hash_spec(decode_spec(raw)->Ok_0);
            &&& returned == Ok::<Seq<u8>, SubmitError>(accepted)
            &&& resolve_spec(stored, h, 0) == Ok::<Seq<u8>, ResolveError>(accepted)
            &&& resolve_spec(run(stored, later), h, 0) == Ok::<Seq<u8>, ResolveError>(accepted)
            &&& lookup(stored, h) == Some(record_of(first_attempt(decode_spec(raw)->Ok_0)))
        }),
{
    let tx = decode_spec(raw)->Ok_0;
    let h = hash_spec(tx);
    let submission = first_attempt(tx);
    assert(begin_submit_spec(s, raw) == Ok::<crate::relay::SubmissionView, SubmitError>(
        submission,
    ));
    let stored = submit_spec(s, raw, Ok(accepted)).0;
    assert(stored == s.push(record_of(submission)));
    lemma_push_keeps_hashes(s, record_of(submission));
    lemma_index_of_is_unique(stored, h, s.len() as int);
    lemma_run_keeps_records(stored, later, h);
}

/// Resolving a hash that was never stored fails with `NotFound`.
pub proof fn lemma_unknown_hash_is_not_found(s: Seq<RecordView>, h: Seq<u8>, retry: u8)
    requires
        !contains(s, h),
    ensures
        resolve_spec(s, h, retry) == Err::<Seq<u8>, ResolveError>(ResolveError::NotFound),
{
}

/// Resolution does not depend on what was submitted: it gives the same hash for
/// a retry index before and after any operations on the store, and for a
/// resubmission that succeeds it gives the hash of that attempt.
pub proof fn lemma_resolution_predicts_resubmission(s: Seq<RecordView>, cap: u8, h: Seq<u8>)
    requires
        unique_hashes(s),
        begin_resubmit_spec(s, cap, h).1 is Ok,
    ensures
        ({
            let (t, decided) = begin_resubmit_spec(s, cap, h);
            let attempt = decided->Ok_0;
            &&& resolve_spec(s, h, attempt.retry) == Ok::<Seq<u8>, ResolveError>(attempt.hash)
            &&& resolve_spec(t, h, attempt.retry) == Ok::<Seq<u8>, ResolveError>(attempt.hash)
            &&& lookup(t, h)->Some_0.retries == attempt.retry
        }),
{
    let i = index_of(s, h);
    assert(holds_at(s, h, i));
    lemma_update_keeps_hashes(s, i, RecordView { retries: (s[i].retries + 1) as u8, ..s[i] });
}

} // verus!
