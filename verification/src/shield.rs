//! The protection record and its circuit-breaker state machine: recording a
//! transaction, tripping the breaker by hand, resetting it, and replacing the
//! configuration.

use vstd::prelude::*;
use crate::address::Address;
use crate::config::ShieldConfig;
use crate::config::config_eq;
use crate::events::AnomalyDetected;
use crate::events::CircuitBreakerReset;
use crate::events::CircuitBreakerTriggered;
use crate::events::ConfigUpdated;
use crate::events::ManualTrigger;
use crate::events::Notification;
use crate::events::TransactionAllowed;
use crate::events::TransactionBlocked;
use crate::policy::BlockReason;
use crate::policy::TransactionRecord;
use crate::policy::TransactionResult;
use crate::policy::ValidationResult;
use crate::policy::spec_result_of;
use crate::policy::spec_validate;
use crate::policy::validate_transaction;

verus! {

/// The three positions of the circuit breaker.
#[derive(Clone, Copy, PartialEq, Eq, Structural, Debug)]
pub enum CircuitState {
    /// Normal operation; transactions are evaluated against policy.
    Closed,
    /// Tripped; all traffic is rejected until the cooldown ends.
    Open,
    /// Probing after a cooldown; one verdict decides what happens next.
    HalfOpen,
}

/// Why an operation was refused outright, with no state change.
#[derive(Clone, Copy, PartialEq, Eq, Structural, Debug)]
pub enum ShieldError {
    /// The caller is not the record's authority.
    Unauthorized,
    /// A record for this agent wallet already exists.
    AlreadyExists,
    /// No record exists for this agent wallet.
    NotFound,
}

/// Persisted protection state for one agent: configuration, circuit state,
/// counters, and timestamps.
#[derive(PartialEq, Eq, Debug)]
pub struct Shield {
    /// Entity permitted to administer this record.
    pub authority: Address,
    /// The protected identity; never changes after creation.
    pub agent_wallet: Address,
    /// The risk rules in force.
    pub config: ShieldConfig,
    /// Current circuit position.
    pub state: CircuitState,
    /// Anomalies accumulated since the last reset or probe success.
    pub anomaly_count: u8,
    /// When the circuit last tripped; zero means never.
    pub last_triggered_at: i64,
    /// When the current cooldown ends; zero means no cooldown.
    pub cooldown_ends_at: i64,
    /// Transactions that reached policy evaluation; never decreases.
    pub total_transactions: u64,
    /// Transactions rejected, by policy or by an open circuit; never
    /// decreases.
    pub blocked_transactions: u64,
    /// When the record was created; never changes.
    pub created_at: i64,
}

/// Field-for-field agreement of two records; configurations are compared by
/// `config_eq`.
pub open spec fn shield_eq(a: Shield, b: Shield) -> bool {
    &&& a.authority == b.authority
    &&& a.agent_wallet == b.agent_wallet
    &&& config_eq(a.config, b.config)
    &&& a.state == b.state
    &&& a.anomaly_count == b.anomaly_count
    &&& a.last_triggered_at == b.last_triggered_at
    &&& a.cooldown_ends_at == b.cooldown_ends_at
    &&& a.total_transactions == b.total_transactions
    &&& a.blocked_transactions == b.blocked_transactions
    &&& a.created_at == b.created_at
}

/// The freshly created record for `agent_wallet`: circuit closed, every
/// counter at zero.
pub open spec fn spec_new_shield(
    authority: Address,
    agent_wallet: Address,
    config: ShieldConfig,
    now: i64,
) -> Shield {
    Shield {
        authority,
        agent_wallet,
        config,
        state: CircuitState::Closed,
        anomaly_count: 0,
        last_triggered_at: 0,
        cooldown_ends_at: 0,
        total_transactions: 0,
        blocked_transactions: 0,
        created_at: now,
    }
}

/// The record after a manual trip at `now`: open, with a fresh cooldown.
/// The anomaly count is left as it stands.
pub open spec fn spec_trigger(s: Shield, now: i64) -> Shield {
    Shield {
        state: CircuitState::Open,
        last_triggered_at: now,
        cooldown_ends_at: (now + s.config.cooldown_seconds) as i64,
        ..s
    }
}

/// The record after a manual reset: closed, anomaly count and cooldown
/// cleared. The historical counters are kept.
pub open spec fn spec_reset(s: Shield) -> Shield {
    Shield { state: CircuitState::Closed, anomaly_count: 0, cooldown_ends_at: 0, ..s }
}

/// The record after the lazy cooldown check at `now`: an open circuit whose
/// cooldown has elapsed moves to half-open before anything else happens.
pub open spec fn spec_probe(s: Shield, now: i64) -> Shield {
    if s.state is Open && now >= s.cooldown_ends_at {
        Shield { state: CircuitState::HalfOpen, ..s }
    } else {
        s
    }
}

/// The record after verdict `v` lands on `s` at `now`, assuming the circuit
/// did not reject the transaction outright. This is the transition table:
/// an evaluated transaction always counts toward the total; a success while
/// probing fully closes the circuit and clears the anomaly count; an anomaly
/// accumulates and trips the breaker once the threshold is reached; a policy
/// block only counts.
pub open spec fn spec_apply_verdict(s: Shield, v: ValidationResult, now: i64) -> Shield {
    let t = Shield { total_transactions: (s.total_transactions + 1) as u64, ..s };
    match v {
        ValidationResult::Allowed => {
            if t.state is HalfOpen {
                Shield { state: CircuitState::Closed, anomaly_count: 0, ..t }
            } else {
                t
            }
        },
        ValidationResult::Anomaly(_) => {
            let u = Shield { anomaly_count: (t.anomaly_count + 1) as u8, ..t };
            if u.anomaly_count >= u.config.anomaly_threshold {
                Shield {
                    state: CircuitState::Open,
                    last_triggered_at: now,
                    cooldown_ends_at: (now + u.config.cooldown_seconds) as i64,
                    ..u
                }
            } else {
                u
            }
        },
        ValidationResult::Blocked(_) => {
            Shield { blocked_transactions: (t.blocked_transactions + 1) as u64, ..t }
        },
    }
}

/// The notifications announced for verdict `v`, where `s2` is the record
/// after the verdict was applied. A trip is announced before the anomaly
/// that caused it.
pub open spec fn spec_verdict_notes(s2: Shield, v: ValidationResult, tx: TransactionRecord) -> Seq<
    Notification,
> {
    match v {
        ValidationResult::Allowed => seq![
            Notification::TransactionAllowed(TransactionAllowed { signature: tx.signature }),
        ],
        ValidationResult::Anomaly(reason) => {
            let detected = Notification::AnomalyDetected(
                AnomalyDetected {
                    reason,
                    anomaly_count: s2.anomaly_count,
                    signature: tx.signature,
                },
            );
            if s2.state is Open {
                seq![
                    Notification::CircuitBreakerTriggered(
                        CircuitBreakerTriggered {
                            anomaly_count: s2.anomaly_count,
                            cooldown_ends_at: s2.cooldown_ends_at,
                        },
                    ),
                    detected,
                ]
            } else {
                seq![detected]
            }
        },
        ValidationResult::Blocked(reason) => seq![
            Notification::TransactionBlocked(TransactionBlocked { reason, signature: tx.signature }),
        ],
    }
}

impl Shield {
    /// A record is well formed when its configuration is and, while the
    /// circuit is open, the cooldown ends strictly after the trip that
    /// opened it.
    pub open spec fn wf(self) -> bool {
        &&& self.config.wf()
        &&& (self.state is Open ==> self.cooldown_ends_at > self.last_triggered_at)
    }

    /// True iff the circuit rejects all traffic at `now`: it is open and the
    /// cooldown has not yet elapsed.
    pub open spec fn circuit_blocks(self, now: i64) -> bool {
        self.state is Open && now < self.cooldown_ends_at
    }

    /// Creates the protection record for `agent_wallet`, administered by
    /// `authority`.
    pub fn new(authority: Address, agent_wallet: Address, config: ShieldConfig, now: i64) -> (s:
        Shield)
        requires
            config.wf(),
        ensures
            s == spec_new_shield(authority, agent_wallet, config, now),
            s.wf(),
    {
        Shield {
            authority,
            agent_wallet,
            config,
            state: CircuitState::Closed,
            anomaly_count: 0,
            last_triggered_at: 0,
            cooldown_ends_at: 0,
            total_transactions: 0,
            blocked_transactions: 0,
            created_at: now,
        }
    }
}

/// Everything `record_transaction` does to `s` for transaction `tx` at time
/// `now`: the record afterwards, the result reported to the caller, and the
/// notifications to emit, in order. An open circuit whose cooldown still
/// runs rejects the transaction before any policy evaluation and counts it
/// only as blocked; otherwise the (possibly just half-opened) record
/// evaluates the transaction and applies the verdict.
pub open spec fn spec_record(s: Shield, tx: TransactionRecord, now: i64) -> (Shield,
    TransactionResult,
    Seq<Notification>,
) {
    if s.circuit_blocks(now) {
        (
            Shield { blocked_transactions: (s.blocked_transactions + 1) as u64, ..s },
            TransactionResult::Blocked,
            seq![
                Notification::TransactionBlocked(
                    TransactionBlocked {
                        reason: BlockReason::CircuitOpen,
                        signature: tx.signature,
                    },
                ),
            ],
        )
    } else {
        let p = spec_probe(s, now);
        let v = spec_validate(p.config, tx);
        let s2 = spec_apply_verdict(p, v, now);
        (s2, spec_result_of(v), spec_verdict_notes(s2, v, tx))
    }
}

/// The machine-limit conditions under which `record_transaction` runs
/// without any counter or timestamp overflowing: exactly the increments the
/// call will make must fit.
pub open spec fn spec_record_fits(s: Shield, tx: TransactionRecord, now: i64) -> bool {
    if s.circuit_blocks(now) {
        s.blocked_transactions < u64::MAX
    } else {
        let v = spec_validate(s.config, tx);
        &&& s.total_transactions < u64::MAX
        &&& (v is Anomaly ==> s.anomaly_count < u8::MAX && (
        s.anomaly_count + 1 >= s.config.anomaly_threshold ==> now + s.config.cooldown_seconds
            <= i64::MAX))
        &&& (v is Blocked ==> s.blocked_transactions < u64::MAX)
    }
}

impl Shield {
    /// Records one transaction at time `now`, returning the result and the
    /// notifications to emit. Every call resolves to one of the three
    /// results; the record is changed exactly as `spec_record` says.
    pub fn record_transaction(&mut self, tx: &TransactionRecord, now: i64) -> (out: (
        TransactionResult,
        Vec<Notification>,
    ))
        requires
            old(self).wf(),
            spec_record_fits(*old(self), *tx, now),
        ensures
            ({
                let (s2, res, notes) = spec_record(*old(self), *tx, now);
                &&& *final(self) == s2
                &&& out.0 == res
                &&& out.1@ == notes
            }),
            final(self).wf(),
            final(self).authority == old(self).authority,
            final(self).agent_wallet == old(self).agent_wallet,
            final(self).created_at == old(self).created_at,
            config_eq(final(self).config, old(self).config),
            final(self).total_transactions >= old(self).total_transactions,
            final(self).blocked_transactions >= old(self).blocked_transactions,
    {
        let mut notes: Vec<Notification> = Vec::new();
        if self.state == CircuitState::Open {
            if now < self.cooldown_ends_at {
                self.blocked_transactions = self.blocked_transactions + 1;
                notes.push(
                    Notification::TransactionBlocked(
                        TransactionBlocked {
                            reason: BlockReason::CircuitOpen,
                            signature: tx.signature,
                        },
                    ),
                );
                return (TransactionResult::Blocked, notes);
            } else {
                self.state = CircuitState::HalfOpen;
            }
        }
        let verdict = validate_transaction(&self.config, tx);
        self.total_transactions = self.total_transactions + 1;
        match verdict {
            ValidationResult::Allowed => {
                if self.state == CircuitState::HalfOpen {
                    self.state = CircuitState::Closed;
                    self.anomaly_count = 0;
                }
                notes.push(
                    Notification::TransactionAllowed(
                        TransactionAllowed { signature: tx.signature },
                    ),
                );
                (TransactionResult::Allowed, notes)
            },
            ValidationResult::Anomaly(reason) => {
                self.anomaly_count = self.anomaly_count + 1;
                if self.anomaly_count >= self.config.anomaly_threshold {
                    self.state = CircuitState::Open;
                    self.last_triggered_at = now;
                    self.cooldown_ends_at = now + self.config.cooldown_seconds;
                    notes.push(
                        Notification::CircuitBreakerTriggered(
                            CircuitBreakerTriggered {
                                anomaly_count: self.anomaly_count,
                                cooldown_ends_at: self.cooldown_ends_at,
                            },
                        ),
                    );
                }
                notes.push(
                    Notification::AnomalyDetected(
                        AnomalyDetected {
                            reason,
                            anomaly_count: self.anomaly_count,
                            signature: tx.signature,
                        },
                    ),
                );
                (TransactionResult::Flagged, notes)
            },
            ValidationResult::Blocked(reason) => {
                self.blocked_transactions = self.blocked_transactions + 1;
                notes.push(
                    Notification::TransactionBlocked(
                        TransactionBlocked { reason, signature: tx.signature },
                    ),
                );
                (TransactionResult::Blocked, notes)
            },
        }
    }

    /// Replaces the configuration wholesale; nothing else changes, and in
    /// particular no counter or circuit state is reset. Refused without any
    /// state change when `caller` is not the authority.
    pub fn update_config(&mut self, new_config: ShieldConfig, caller: Address) -> (r: Result<
        Vec<Notification>,
        ShieldError,
    >)
        requires
            old(self).wf(),
            new_config.wf(),
        ensures
            caller != old(self).authority ==> r == Result::<
                Vec<Notification>,
                ShieldError,
            >::Err(ShieldError::Unauthorized) && *final(self) == *old(self),
            caller == old(self).authority ==> {
                &&& *final(self) == (Shield { config: new_config, ..*old(self) })
                &&& (r matches Ok(notes) && notes@.len() == 1 && (
                notes@[0] matches Notification::ConfigUpdated(e) && config_eq(e.config, new_config)))
            },
            final(self).wf(),
    {
        if !(caller == self.authority) {
            return Err(ShieldError::Unauthorized);
        }
        let announced = new_config.clone();
        self.config = new_config;
        let mut notes: Vec<Notification> = Vec::new();
        notes.push(Notification::ConfigUpdated(ConfigUpdated { config: announced }));
        Ok(notes)
    }

    /// Trips the breaker by hand: the circuit opens immediately, whatever
    /// state it was in, with a fresh cooldown; the anomaly count is kept.
    /// Refused without any state change when `caller` is not the authority.
    pub fn trigger_circuit_breaker(&mut self, reason: String, caller: Address, now: i64) -> (r:
        Result<Vec<Notification>, ShieldError>)
        requires
            old(self).wf(),
            caller == old(self).authority ==> now + old(self).config.cooldown_seconds <= i64::MAX,
        ensures
            caller != old(self).authority ==> r == Result::<
                Vec<Notification>,
                ShieldError,
            >::Err(ShieldError::Unauthorized) && *final(self) == *old(self),
            caller == old(self).authority ==> {
                &&& *final(self) == spec_trigger(*old(self), now)
                &&& (r matches Ok(notes) && notes@ == seq![
                    Notification::CircuitBreakerTriggered(
                        CircuitBreakerTriggered {
                            anomaly_count: old(self).anomaly_count,
                            cooldown_ends_at: spec_trigger(*old(self), now).cooldown_ends_at,
                        },
                    ),
                    Notification::ManualTrigger(
                        ManualTrigger { triggered_by: caller, reason },
                    ),
                ])
            },
            final(self).wf(),
    {
        if !(caller == self.authority) {
            return Err(ShieldError::Unauthorized);
        }
        self.state = CircuitState::Open;
        self.last_triggered_at = now;
        self.cooldown_ends_at = now + self.config.cooldown_seconds;
        let mut notes: Vec<Notification> = Vec::new();
        notes.push(
            Notification::CircuitBreakerTriggered(
                CircuitBreakerTriggered {
                    anomaly_count: self.anomaly_count,
                    cooldown_ends_at: self.cooldown_ends_at,
                },
            ),
        );
        notes.push(Notification::ManualTrigger(ManualTrigger { triggered_by: caller, reason }));
        Ok(notes)
    }

    /// Resets the breaker by hand: the circuit closes, the anomaly count and
    /// cooldown are cleared, and the historical counters are kept. Refused
    /// without any state change when `caller` is not the authority.
    pub fn reset_circuit_breaker(&mut self, caller: Address) -> (r: Result<
        Vec<Notification>,
        ShieldError,
    >)
        requires
            old(self).wf(),
        ensures
            caller != old(self).authority ==> r == Result::<
                Vec<Notification>,
                ShieldError,
            >::Err(ShieldError::Unauthorized) && *final(self) == *old(self),
            caller == old(self).authority ==> {
                &&& *final(self) == spec_reset(*old(self))
                &&& (r matches Ok(notes) && notes@ == seq![
                    Notification::CircuitBreakerReset(CircuitBreakerReset { reset_by: caller }),
                ])
            },
            final(self).wf(),
    {
        if !(caller == self.authority) {
            return Err(ShieldError::Unauthorized);
        }
        self.state = CircuitState::Closed;
        self.anomaly_count = 0;
        self.cooldown_ends_at = 0;
        let mut notes: Vec<Notification> = Vec::new();
        notes.push(Notification::CircuitBreakerReset(CircuitBreakerReset { reset_by: caller }));
        Ok(notes)
    }
}

impl Clone for Shield {
    /// The copy agrees with the original on every field.
    fn clone(&self) -> (r: Self)
        ensures
            shield_eq(r, *self),
    {
        Shield {
            authority: self.authority,
            agent_wallet: self.agent_wallet,
            config: self.config.clone(),
            state: self.state,
            anomaly_count: self.anomaly_count,
            last_triggered_at: self.last_triggered_at,
            cooldown_ends_at: self.cooldown_ends_at,
            total_transactions: self.total_transactions,
            blocked_transactions: self.blocked_transactions,
            created_at: self.created_at,
        }
    }
}

} // verus!
