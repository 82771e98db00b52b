use vstd::prelude::*;

use crate::error::NtfsError;
use crate::index_allocation::{next_step, NtfsIndexRecords, NtfsIndexRecordsAttached};
use crate::index_record::{IndexRecordParser, NtfsIndexRecord};

verus! {

/// A run of a record sequence: `states[0]` is the starting sequence, and the
/// i-th call of `next` returned `results[i]`, taking `states[i]` to
/// `states[i + 1]`. Calls made through an attached adapter are steps of the
/// same run, since the adapter takes exactly one step of the sequence it
/// stores.
pub open spec fn is_run(
    states: Seq<NtfsIndexRecords>,
    results: Seq<Option<Result<NtfsIndexRecord, NtfsError>>>,
) -> bool {
    &&& states.len() == results.len() + 1
    &&& forall|i: int|
        0 <= i < results.len() ==> next_step(#[trigger] states[i], states[i + 1], results[i])
}

/// How many calls of a run produced a record.
pub open spec fn ok_count(results: Seq<Option<Result<NtfsIndexRecord, NtfsError>>>) -> nat
    decreases results.len(),
{
    if results.len() == 0 {
        0
    } else {
        ok_count(results.drop_last()) + match results.last() {
            Some(Ok(_)) => 1nat,
            _ => 0nat,
        }
    }
}

/// Over an empty stream the sequence is terminal from the start, whatever
/// the record size: the very first call already signals exhaustion.
pub proof fn lemma_empty_stream_starts_terminal(s: NtfsIndexRecords)
    requires
        s.spec_len() == 0,
    ensures
        s.is_terminal(),
{
}

/// Termination is idempotent for one step: a step taken from a terminal
/// sequence signals exhaustion and leaves the sequence unchanged — and
/// therefore terminal.
pub proof fn lemma_terminal_is_stable(
    pre: NtfsIndexRecords,
    post: NtfsIndexRecords,
    r: Option<Result<NtfsIndexRecord, NtfsError>>,
)
    requires
        pre.is_terminal(),
        next_step(pre, post, r),
    ensures
        r is None,
        post == pre,
        post.is_terminal(),
{
}

proof fn lemma_terminal_stays_terminal(
    states: Seq<NtfsIndexRecords>,
    results: Seq<Option<Result<NtfsIndexRecord, NtfsError>>>,
    i: int,
    j: int,
)
    requires
        is_run(states, results),
        0 <= i <= j < states.len(),
        states[i].is_terminal(),
    ensures
        states[j].is_terminal(),
    decreases j - i,
{
    if j > i {
        lemma_terminal_stays_terminal(states, results, i, j - 1);
        lemma_terminal_is_stable(states[j - 1], states[j], results[j - 1]);
    }
}

/// Once terminal is observed at some point of a run, every later state of
/// the run is terminal too, and every later call returns the terminal
/// signal — whether the calls go through the sequence or through an adapter.
pub proof fn lemma_termination_is_idempotent(
    states: Seq<NtfsIndexRecords>,
    results: Seq<Option<Result<NtfsIndexRecord, NtfsError>>>,
    i: int,
)
    requires
        is_run(states, results),
        0 <= i < states.len(),
        states[i].is_terminal(),
    ensures
        forall|j: int| i <= j < states.len() ==> (#[trigger] states[j]).is_terminal(),
        forall|j: int| i <= j < results.len() ==> (#[trigger] results[j]) is None,
{
    assert forall|j: int| i <= j < states.len() implies (#[trigger] states[j]).is_terminal() by {
        lemma_terminal_stays_terminal(states, results, i, j);
    }
    assert forall|j: int| i <= j < results.len() implies (#[trigger] results[j]) is None by {
        lemma_terminal_stays_terminal(states, results, i, j);
        lemma_terminal_is_stable(states[j], states[j + 1], results[j]);
    }
}

/// Position accounting over a run: a successful step advances the position
/// by exactly one record size, and a failed step or terminal signal leaves
/// it unchanged, so the position after the run is the starting position plus
/// the number of successes times the record size. In particular, after n
/// successful steps from a fresh sequence the position is n times the record
/// size, and a parser failure at any step leaves the position exactly where
/// the preceding successes put it, whatever the caller does next.
pub proof fn lemma_position_counts_successes(
    states: Seq<NtfsIndexRecords>,
    results: Seq<Option<Result<NtfsIndexRecord, NtfsError>>>,
)
    requires
        is_run(states, results),
    ensures
        states.last().spec_record_size() == states[0].spec_record_size(),
        states.last().spec_len() == states[0].spec_len(),
        states.last().spec_position() == states[0].spec_position() + ok_count(results)
            * states[0].spec_record_size(),
    decreases results.len(),
{
    if results.len() == 0 {
        assert(states.last() == states[0]);
        assert(ok_count(results) == 0);
    } else {
        let sub_states = states.drop_last();
        let sub_results = results.drop_last();
        assert(is_run(sub_states, sub_results)) by {
            assert forall|i: int|
                0 <= i < sub_results.len() implies next_step(
                #[trigger] sub_states[i],
                sub_states[i + 1],
                sub_results[i],
            ) by {
                assert(next_step(states[i], states[i + 1], results[i]));
            }
        }
        lemma_position_counts_successes(sub_states, sub_results);
        let pre = states[states.len() - 2];
        let post = states.last();
        let c = ok_count(sub_results) as int;
        let r0 = states[0].spec_record_size() as int;
        assert(sub_states[0] == states[0]);
        assert(sub_states.last() == pre);
        assert(next_step(pre, post, results.last()));
        assert(pre.spec_position() == states[0].spec_position() + c * r0);
        match results.last() {
            Some(Ok(_)) => {
                assert((c + 1) * r0 == c * r0 + r0) by (nonlinear_arith);
                assert(states.last().spec_position() == states[0].spec_position() + ok_count(
                    results,
                ) * states[0].spec_record_size());
            },
            _ => {
                assert(ok_count(results) == c);
                assert(states.last().spec_position() == states[0].spec_position() + ok_count(
                    results,
                ) * states[0].spec_record_size());
            },
        }
    }
}

/// Over a stream holding exactly k whole records (length k times the record
/// size), a run from a fresh sequence produces at most k records, and the
/// sequence is terminal exactly when all k have been produced: exactly k
/// successful records, then the terminal signal on every further call.
pub proof fn lemma_exactly_k_records(
    states: Seq<NtfsIndexRecords>,
    results: Seq<Option<Result<NtfsIndexRecord, NtfsError>>>,
    k: nat,
)
    requires
        is_run(states, results),
        states[0].wf(),
        states[0].spec_position() == 0,
        states[0].spec_len() == k * states[0].spec_record_size(),
    ensures
        ok_count(results) <= k,
        states.last().is_terminal() <==> ok_count(results) == k,
    decreases results.len(),
{
    let r0 = states[0].spec_record_size() as int;
    if results.len() == 0 {
        assert(states.last() == states[0]);
        if k > 0 {
            assert(k * r0 >= 1 * r0) by (nonlinear_arith)
                requires
                    k >= 1,
                    r0 >= 1,
            ;
        }
    } else {
        let sub_states = states.drop_last();
        let sub_results = results.drop_last();
        assert(is_run(sub_states, sub_results)) by {
            assert forall|i: int|
                0 <= i < sub_results.len() implies next_step(
                #[trigger] sub_states[i],
                sub_states[i + 1],
                sub_results[i],
            ) by {
                assert(next_step(states[i], states[i + 1], results[i]));
            }
        }
        lemma_exactly_k_records(sub_states, sub_results, k);
        lemma_position_counts_successes(sub_states, sub_results);
        let pre = states[states.len() - 2];
        let post = states.last();
        let c = ok_count(sub_results) as int;
        assert(sub_states[0] == states[0]);
        assert(sub_states.last() == pre);
        assert(next_step(pre, post, results.last()));
        match results.last() {
            None => {},
            Some(Ok(_)) => {
                // The step was taken from a non-terminal state, so fewer than
                // k records had been produced before it.
                assert(c < k) by (nonlinear_arith)
                    requires
                        r0 >= 1,
                        c >= 0,
                        c * r0 < k * r0,
                ;
                assert(post.spec_position() == (c + 1) * r0) by (nonlinear_arith)
                    requires
                        post.spec_position() == c * r0 + r0,
                ;
                if c + 1 == k {
                    assert(post.is_terminal());
                } else {
                    assert((c + 1) * r0 < k * r0) by (nonlinear_arith)
                        requires
                            r0 >= 1,
                            c + 1 < k,
                    ;
                }
            },
            Some(Err(_)) => {
                assert(c < k) by (nonlinear_arith)
                    requires
                        r0 >= 1,
                        c >= 0,
                        c * r0 < k * r0,
                ;
            },
        }
    }
}

/// Resuming neither skips nor duplicates: after a run with some number i of
/// successes from a fresh sequence — no matter how the calls were split
/// between the sequence itself and adapters it was attached to — a further
/// successful step produces exactly the record whose window starts at i
/// times the record size, the (i+1)-th record, and leaves the position one
/// record later.
pub proof fn lemma_resume_continues_run(
    states: Seq<NtfsIndexRecords>,
    results: Seq<Option<Result<NtfsIndexRecord, NtfsError>>>,
    post: NtfsIndexRecords,
    rec: NtfsIndexRecord,
)
    requires
        is_run(states, results),
        states[0].spec_position() == 0,
        next_step(states.last(), post, Some(Ok(rec))),
    ensures
        rec.spec_position() == ok_count(results) * states[0].spec_record_size(),
        rec.spec_record_size() == states[0].spec_record_size(),
        post.spec_position() == (ok_count(results) + 1) * states[0].spec_record_size(),
{
    lemma_position_counts_successes(states, results);
    let c = ok_count(results) as int;
    let r0 = states[0].spec_record_size() as int;
    assert((c + 1) * r0 == c * r0 + r0) by (nonlinear_arith);
}

/// Attaching and then detaching yields the sequence unchanged: `attach`
/// stores the sequence exactly as given and `detach` returns the stored one,
/// so the position is preserved and no I/O is performed between the two.
pub proof fn lemma_attach_detach_round_trip<'a, T: IndexRecordParser>(
    s: NtfsIndexRecords,
    attached: NtfsIndexRecordsAttached<'a, T>,
    detached: NtfsIndexRecords,
)
    requires
        attached.spec_records() == s,
        detached == attached.spec_records(),
    ensures
        detached == s,
        detached.spec_position() == s.spec_position(),
{
}

} // verus!
