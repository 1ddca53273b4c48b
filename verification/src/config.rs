//! Per-agent protection configuration.

use vstd::prelude::*;
use crate::address::Address;

verus! {

/// Largest number of entries either program list may hold; the persisted
/// record reserves exactly this much room for each list.
pub const MAX_PROGRAM_LIST_LEN: usize = 10;

/// The risk rules one protection record is checked against.
#[derive(PartialEq, Eq, Debug)]
pub struct ShieldConfig {
    /// Hard ceiling on a single transaction's value; exceeding it is always
    /// an anomaly.
    pub max_transaction_value: u64,
    /// Declared daily spending cap; recorded but not consumed by the
    /// evaluation logic.
    pub daily_spend_limit: u64,
    /// Value above which a transaction is flagged even when below the ceiling.
    pub approval_threshold: u64,
    /// Number of accumulated anomalies that trips the circuit breaker.
    pub anomaly_threshold: u8,
    /// Declared anomaly-window size in seconds; recorded but not consumed by
    /// the counting logic.
    pub time_window_seconds: i64,
    /// How long the breaker stays open after a trip, in seconds.
    pub cooldown_seconds: i64,
    /// If non-empty, an allowlist: destinations outside it are anomalies.
    pub allowed_programs: Vec<Address>,
    /// Destinations that are always blocked, with highest precedence.
    pub blocked_programs: Vec<Address>,
}

impl ShieldConfig {
    /// A configuration is well formed when both program lists respect the
    /// storage bound and the cooldown is a positive duration, so that an open
    /// circuit always ends strictly after the trip that opened it.
    pub open spec fn wf(self) -> bool {
        &&& self.allowed_programs@.len() <= MAX_PROGRAM_LIST_LEN
        &&& self.blocked_programs@.len() <= MAX_PROGRAM_LIST_LEN
        &&& self.cooldown_seconds >= 1
    }
}

/// Field-for-field agreement of two configurations; the program lists are
/// compared by their contents.
pub open spec fn config_eq(a: ShieldConfig, b: ShieldConfig) -> bool {
    &&& a.max_transaction_value == b.max_transaction_value
    &&& a.daily_spend_limit == b.daily_spend_limit
    &&& a.approval_threshold == b.approval_threshold
    &&& a.anomaly_threshold == b.anomaly_threshold
    &&& a.time_window_seconds == b.time_window_seconds
    &&& a.cooldown_seconds == b.cooldown_seconds
    &&& a.allowed_programs@ == b.allowed_programs@
    &&& a.blocked_programs@ == b.blocked_programs@
}

/// Copies an address list element for element.
fn clone_addresses(v: &Vec<Address>) -> (r: Vec<Address>)
    ensures
        r@ == v@,
{
    let mut r: Vec<Address> = Vec::new();
    let mut i: usize = 0;
    while i < v.len()
        invariant
            i <= v@.len(),
            r@ == v@.subrange(0, i as int),
        decreases v@.len() - i,
    {
        r.push(v[i]);
        assert(r@ =~= v@.subrange(0, i as int + 1));
        i += 1;
    }
    assert(r@ =~= v@);
    r
}

impl Clone for ShieldConfig {
    /// The copy agrees with the original on every field.
    fn clone(&self) -> (r: Self)
        ensures
            config_eq(r, *self),
    {
        ShieldConfig {
            max_transaction_value: self.max_transaction_value,
            daily_spend_limit: self.daily_spend_limit,
            approval_threshold: self.approval_threshold,
            anomaly_threshold: self.anomaly_threshold,
            time_window_seconds: self.time_window_seconds,
            cooldown_seconds: self.cooldown_seconds,
            allowed_programs: clone_addresses(&self.allowed_programs),
            blocked_programs: clone_addresses(&self.blocked_programs),
        }
    }
}

} // verus!
