//! Proofs of the properties that hold of every configuration and every
//! sequence of recorded transactions.

use vstd::prelude::*;
use crate::policy::TransactionRecord;
use crate::policy::TransactionResult;
use crate::policy::spec_validate;
use crate::shield::Shield;
use crate::shield::spec_probe;
use crate::shield::spec_record;
use crate::shield::spec_reset;

verus! {

/// The record after a whole sequence of `record_transaction` calls, each
/// entry pairing a transaction with the time it arrived.
pub open spec fn spec_run(s: Shield, calls: Seq<(TransactionRecord, i64)>) -> Shield
    decreases calls.len(),
{
    if calls.len() == 0 {
        s
    } else {
        spec_run(spec_record(s, calls[0].0, calls[0].1).0, calls.drop_first())
    }
}

/// How many of `calls` reach policy evaluation, that is, are not rejected
/// outright by an open circuit whose cooldown still runs.
pub open spec fn count_evaluated(s: Shield, calls: Seq<(TransactionRecord, i64)>) -> nat
    decreases calls.len(),
{
    if calls.len() == 0 {
        0
    } else {
        let here: nat = if s.circuit_blocks(calls[0].1) {
            0
        } else {
            1
        };
        here + count_evaluated(spec_record(s, calls[0].0, calls[0].1).0, calls.drop_first())
    }
}

/// How many of `calls` are rejected outright by an open circuit, before any
/// policy evaluation.
pub open spec fn count_short_circuited(s: Shield, calls: Seq<(TransactionRecord, i64)>) -> nat
    decreases calls.len(),
{
    if calls.len() == 0 {
        0
    } else {
        let here: nat = if s.circuit_blocks(calls[0].1) {
            1
        } else {
            0
        };
        here + count_short_circuited(spec_record(s, calls[0].0, calls[0].1).0, calls.drop_first())
    }
}

/// How many of `calls` are evaluated and receive a blocked verdict from the
/// policy.
pub open spec fn count_blocked_verdicts(s: Shield, calls: Seq<(TransactionRecord, i64)>) -> nat
    decreases calls.len(),
{
    if calls.len() == 0 {
        0
    } else {
        let here: nat = if !s.circuit_blocks(calls[0].1) && spec_validate(
            spec_probe(s, calls[0].1).config,
            calls[0].0,
        ) is Blocked {
            1
        } else {
            0
        };
        here + count_blocked_verdicts(spec_record(s, calls[0].0, calls[0].1).0, calls.drop_first())
    }
}

/// Over any sequence of recorded transactions, the total-transactions
/// counter grows by exactly the number of calls that reach policy
/// evaluation: a rejection by an open circuit is never counted.
pub proof fn lemma_total_counts_only_evaluated_calls(
    s: Shield,
    calls: Seq<(TransactionRecord, i64)>,
)
    requires
        s.total_transactions + count_evaluated(s, calls) <= u64::MAX,
    ensures
        spec_run(s, calls).total_transactions == s.total_transactions + count_evaluated(s, calls),
    decreases calls.len(),
{
    if calls.len() > 0 {
        let s1 = spec_record(s, calls[0].0, calls[0].1).0;
        lemma_total_counts_only_evaluated_calls(s1, calls.drop_first());
    }
}

/// Over any sequence of recorded transactions, the blocked-transactions
/// counter grows by exactly one for every rejection by an open circuit and
/// exactly one for every blocked verdict; in particular it is at least the
/// number of blocked verdicts produced.
pub proof fn lemma_blocked_accounting(s: Shield, calls: Seq<(TransactionRecord, i64)>)
    requires
        s.blocked_transactions + count_short_circuited(s, calls) + count_blocked_verdicts(s, calls)
            <= u64::MAX,
    ensures
        spec_run(s, calls).blocked_transactions == s.blocked_transactions + count_short_circuited(
            s,
            calls,
        ) + count_blocked_verdicts(s, calls),
        spec_run(s, calls).blocked_transactions >= count_blocked_verdicts(s, calls),
    decreases calls.len(),
{
    if calls.len() > 0 {
        let s1 = spec_record(s, calls[0].0, calls[0].1).0;
        lemma_blocked_accounting(s1, calls.drop_first());
    }
}

/// Once the anomaly count stands to reach the threshold while the circuit
/// is closed or probing, the very next anomalous transaction trips the
/// breaker: the record comes out open, with the trip stamped at `now` and
/// the cooldown ending exactly `cooldown_seconds` later.
pub proof fn lemma_threshold_trips_breaker(s: Shield, tx: TransactionRecord, now: i64)
    requires
        s.wf(),
        !s.circuit_blocks(now),
        spec_validate(s.config, tx) is Anomaly,
        s.anomaly_count + 1 >= s.config.anomaly_threshold,
        s.anomaly_count < u8::MAX,
        now + s.config.cooldown_seconds <= i64::MAX,
    ensures
        ({
            let (s2, res, notes) = spec_record(s, tx, now);
            &&& s2.state is Open
            &&& s2.last_triggered_at == now
            &&& s2.cooldown_ends_at == now + s.config.cooldown_seconds
            &&& res == TransactionResult::Flagged
        }),
{
}

/// A transaction to a blocklisted destination is always reported blocked:
/// by the open circuit if the cooldown still runs, and by the blocklist
/// rule, which precedes every other rule, otherwise.
pub proof fn lemma_blocklisted_always_blocked(s: Shield, tx: TransactionRecord, now: i64)
    requires
        s.config.blocked_programs@.contains(tx.program_id),
    ensures
        spec_record(s, tx, now).1 == TransactionResult::Blocked,
{
}

/// Resetting twice in a row lands in exactly the state one reset lands in:
/// circuit closed, anomaly count zero, no cooldown, counters untouched.
pub proof fn lemma_reset_idempotent(s: Shield)
    ensures
        spec_reset(spec_reset(s)) == spec_reset(s),
{
}

} // verus!
