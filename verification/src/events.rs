//! Typed notifications handed back to the caller for delivery to the outside
//! world. The core only decides *what* to announce; delivering the events is
//! the surrounding layer's business, so a failed delivery can never disturb a
//! state transition that already happened.

use vstd::prelude::*;
use crate::address::Address;
use crate::config::ShieldConfig;
use crate::policy::AnomalyReason;
use crate::policy::BlockReason;

verus! {

/// A protection record was created.
#[derive(Clone, PartialEq, Eq, Debug)]
pub struct ShieldInitialized {
    pub agent_wallet: Address,
    pub authority: Address,
}

/// A record's configuration was replaced.
#[derive(Clone, PartialEq, Eq, Debug)]
pub struct ConfigUpdated {
    pub config: ShieldConfig,
}

/// A transaction passed every policy rule.
#[derive(Clone, PartialEq, Eq, Debug)]
pub struct TransactionAllowed {
    pub signature: [u8; 64],
}

/// A transaction was rejected, either by policy or by an open circuit.
#[derive(Clone, PartialEq, Eq, Debug)]
pub struct TransactionBlocked {
    pub reason: BlockReason,
    pub signature: [u8; 64],
}

/// A transaction broke a soft policy rule and was counted as an anomaly.
#[derive(Clone, PartialEq, Eq, Debug)]
pub struct AnomalyDetected {
    pub reason: AnomalyReason,
    pub anomaly_count: u8,
    pub signature: [u8; 64],
}

/// The circuit breaker tripped into the open state.
#[derive(Clone, PartialEq, Eq, Debug)]
pub struct CircuitBreakerTriggered {
    pub anomaly_count: u8,
    pub cooldown_ends_at: i64,
}

/// The circuit breaker was administratively reset.
#[derive(Clone, PartialEq, Eq, Debug)]
pub struct CircuitBreakerReset {
    pub reset_by: Address,
}

/// The circuit breaker was tripped by hand, with a free-form reason.
#[derive(Clone, PartialEq, Eq, Debug)]
pub struct ManualTrigger {
    pub triggered_by: Address,
    pub reason: String,
}

/// One notification to emit; each variant wraps the event it announces.
#[derive(Clone, PartialEq, Eq, Debug)]
pub enum Notification {
    ShieldInitialized(ShieldInitialized),
    ConfigUpdated(ConfigUpdated),
    TransactionAllowed(TransactionAllowed),
    TransactionBlocked(TransactionBlocked),
    AnomalyDetected(AnomalyDetected),
    CircuitBreakerTriggered(CircuitBreakerTriggered),
    CircuitBreakerReset(CircuitBreakerReset),
    ManualTrigger(ManualTrigger),
}

} // verus!
