//! The pure policy evaluator: classifies one transaction against a
//! configuration as allowed, anomalous, or blocked.

use vstd::prelude::*;
use crate::address::Address;
use crate::address::list_contains;
use crate::config::ShieldConfig;

verus! {

/// Why a transaction was blocked outright.
#[derive(Clone, Copy, PartialEq, Eq, Structural, Debug)]
pub enum BlockReason {
    /// The destination program sits on the blocklist.
    DestinationBlocklisted,
    /// The circuit breaker is open and rejecting all traffic.
    CircuitOpen,
}

/// Why a transaction counts as an anomaly.
#[derive(Clone, Copy, PartialEq, Eq, Structural, Debug)]
pub enum AnomalyReason {
    /// An allowlist is configured and the destination is not on it.
    DestinationNotAllowlisted,
    /// The value exceeds the configured hard ceiling.
    ValueExceedsMaximum,
    /// The value exceeds the approval threshold.
    ValueRequiresApproval,
}

/// The policy evaluator's verdict on one transaction.
#[derive(Clone, Copy, PartialEq, Eq, Structural, Debug)]
pub enum ValidationResult {
    Allowed,
    Anomaly(AnomalyReason),
    Blocked(BlockReason),
}

/// What the caller of `record_transaction` is told about one transaction.
#[derive(Clone, Copy, PartialEq, Eq, Structural, Debug)]
pub enum TransactionResult {
    Allowed,
    Flagged,
    Blocked,
}

/// One outgoing transaction as presented for inspection.
#[derive(Clone, Copy)]
pub struct TransactionRecord {
    /// Signature of the transaction, carried through to notifications.
    pub signature: [u8; 64],
    /// Destination program of the transaction.
    pub program_id: Address,
    /// Transferred value.
    pub value: u64,
    /// Caller-chosen transaction-type tag; not consumed by the policy.
    pub tx_type: u8,
}

impl BlockReason {
    pub open spec fn spec_message(self) -> Seq<char> {
        match self {
            BlockReason::DestinationBlocklisted => "destination is blocklisted"@,
            BlockReason::CircuitOpen => "circuit breaker is open"@,
        }
    }

    /// The fixed text reported with this reason.
    pub fn message(&self) -> (r: &'static str)
        ensures
            r@ == self.spec_message(),
    {
        match self {
            BlockReason::DestinationBlocklisted => "destination is blocklisted",
            BlockReason::CircuitOpen => "circuit breaker is open",
        }
    }
}

impl AnomalyReason {
    pub open spec fn spec_message(self) -> Seq<char> {
        match self {
            AnomalyReason::DestinationNotAllowlisted => "destination not in allowlist"@,
            AnomalyReason::ValueExceedsMaximum => "value exceeds maximum"@,
            AnomalyReason::ValueRequiresApproval => "value requires approval"@,
        }
    }

    /// The fixed text reported with this reason.
    pub fn message(&self) -> (r: &'static str)
        ensures
            r@ == self.spec_message(),
    {
        match self {
            AnomalyReason::DestinationNotAllowlisted => "destination not in allowlist",
            AnomalyReason::ValueExceedsMaximum => "value exceeds maximum",
            AnomalyReason::ValueRequiresApproval => "value requires approval",
        }
    }
}

/// The verdict on `tx` under `config`: the first matching rule wins, in the
/// order blocklist, allowlist, value ceiling, approval threshold.
pub open spec fn spec_validate(config: ShieldConfig, tx: TransactionRecord) -> ValidationResult {
    if config.blocked_programs@.contains(tx.program_id) {
        ValidationResult::Blocked(BlockReason::DestinationBlocklisted)
    } else if config.allowed_programs@.len() > 0 && !config.allowed_programs@.contains(
        tx.program_id,
    ) {
        ValidationResult::Anomaly(AnomalyReason::DestinationNotAllowlisted)
    } else if tx.value > config.max_transaction_value {
        ValidationResult::Anomaly(AnomalyReason::ValueExceedsMaximum)
    } else if tx.value > config.approval_threshold {
        ValidationResult::Anomaly(AnomalyReason::ValueRequiresApproval)
    } else {
        ValidationResult::Allowed
    }
}

/// Classifies `tx` against `config`. Total and pure: every transaction gets
/// exactly the verdict of `spec_validate`.
pub fn validate_transaction(config: &ShieldConfig, tx: &TransactionRecord) -> (r:
    ValidationResult)
    ensures
        r == spec_validate(*config, *tx),
{
    if list_contains(&config.blocked_programs, tx.program_id) {
        return ValidationResult::Blocked(BlockReason::DestinationBlocklisted);
    }
    if config.allowed_programs.len() > 0 && !list_contains(&config.allowed_programs, tx.program_id)
    {
        return ValidationResult::Anomaly(AnomalyReason::DestinationNotAllowlisted);
    }
    if tx.value > config.max_transaction_value {
        return ValidationResult::Anomaly(AnomalyReason::ValueExceedsMaximum);
    }
    if tx.value > config.approval_threshold {
        return ValidationResult::Anomaly(AnomalyReason::ValueRequiresApproval);
    }
    ValidationResult::Allowed
}

/// How a verdict is reported back to the caller.
pub open spec fn spec_result_of(v: ValidationResult) -> TransactionResult {
    match v {
        ValidationResult::Allowed => TransactionResult::Allowed,
        ValidationResult::Anomaly(_) => TransactionResult::Flagged,
        ValidationResult::Blocked(_) => TransactionResult::Blocked,
    }
}

} // verus!
