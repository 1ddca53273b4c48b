use circuit_breaker::address::Address;
use circuit_breaker::config::ShieldConfig;
use circuit_breaker::events::Notification;
use circuit_breaker::policy::AnomalyReason;
use circuit_breaker::policy::BlockReason;
use circuit_breaker::policy::TransactionRecord;
use circuit_breaker::policy::TransactionResult;
use circuit_breaker::shield::CircuitState;
use circuit_breaker::shield::Shield;
use circuit_breaker::shield::ShieldError;

fn authority() -> Address {
    Address::new(0, 1)
}

fn wallet() -> Address {
    Address::new(0, 2)
}

fn base_config() -> ShieldConfig {
    ShieldConfig {
        max_transaction_value: 1000,
        daily_spend_limit: 10_000,
        approval_threshold: 500,
        anomaly_threshold: 2,
        time_window_seconds: 3600,
        cooldown_seconds: 60,
        allowed_programs: vec![],
        blocked_programs: vec![],
    }
}

fn fresh_shield() -> Shield {
    Shield::new(authority(), wallet(), base_config(), 100)
}

fn tx(value: u64) -> TransactionRecord {
    TransactionRecord { signature: [7u8; 64], program_id: Address::new(0, 3), value, tx_type: 0 }
}

#[test]
fn new_shield_starts_closed_with_zero_counters() {
    let s = fresh_shield();
    assert_eq!(s.state, CircuitState::Closed);
    assert_eq!(s.anomaly_count, 0);
    assert_eq!(s.last_triggered_at, 0);
    assert_eq!(s.cooldown_ends_at, 0);
    assert_eq!(s.total_transactions, 0);
    assert_eq!(s.blocked_transactions, 0);
    assert_eq!(s.created_at, 100);
}

#[test]
fn first_oversized_transaction_is_flagged_and_counted() {
    let mut s = fresh_shield();
    let (result, notes) = s.record_transaction(&tx(2000), 1000);
    assert_eq!(result, TransactionResult::Flagged);
    assert_eq!(s.anomaly_count, 1);
    assert_eq!(s.state, CircuitState::Closed);
    assert_eq!(s.total_transactions, 1);
    assert_eq!(notes.len(), 1);
    match &notes[0] {
        Notification::AnomalyDetected(e) => {
            assert_eq!(e.reason, AnomalyReason::ValueExceedsMaximum);
            assert_eq!(e.anomaly_count, 1);
            assert_eq!(e.signature, [7u8; 64]);
        }
        other => panic!("unexpected notification {:?}", other),
    }
}

#[test]
fn second_anomaly_trips_the_breaker_with_fresh_cooldown() {
    let mut s = fresh_shield();
    s.record_transaction(&tx(2000), 1000);
    let (result, notes) = s.record_transaction(&tx(2000), 1000);
    assert_eq!(result, TransactionResult::Flagged);
    assert_eq!(s.state, CircuitState::Open);
    assert_eq!(s.anomaly_count, 2);
    assert_eq!(s.last_triggered_at, 1000);
    assert_eq!(s.cooldown_ends_at, 1060);
    assert_eq!(notes.len(), 2);
    match &notes[0] {
        Notification::CircuitBreakerTriggered(e) => {
            assert_eq!(e.anomaly_count, 2);
            assert_eq!(e.cooldown_ends_at, 1060);
        }
        other => panic!("unexpected notification {:?}", other),
    }
    match &notes[1] {
        Notification::AnomalyDetected(e) => assert_eq!(e.anomaly_count, 2),
        other => panic!("unexpected notification {:?}", other),
    }
}

#[test]
fn open_circuit_rejects_before_policy_and_counts_only_blocked() {
    let mut s = fresh_shield();
    s.record_transaction(&tx(2000), 1000);
    s.record_transaction(&tx(2000), 1000);
    let total_before = s.total_transactions;
    let (result, notes) = s.record_transaction(&tx(10), 1010);
    assert_eq!(result, TransactionResult::Blocked);
    assert_eq!(s.blocked_transactions, 1);
    assert_eq!(s.total_transactions, total_before);
    assert_eq!(s.state, CircuitState::Open);
    assert_eq!(notes.len(), 1);
    match &notes[0] {
        Notification::TransactionBlocked(e) => assert_eq!(e.reason, BlockReason::CircuitOpen),
        other => panic!("unexpected notification {:?}", other),
    }
}

#[test]
fn elapsed_cooldown_probes_and_a_clean_transaction_closes_the_circuit() {
    let mut s = fresh_shield();
    s.record_transaction(&tx(2000), 1000);
    s.record_transaction(&tx(2000), 1000);
    let (result, notes) = s.record_transaction(&tx(10), 1070);
    assert_eq!(result, TransactionResult::Allowed);
    assert_eq!(s.state, CircuitState::Closed);
    assert_eq!(s.anomaly_count, 0);
    assert_eq!(s.total_transactions, 3);
    assert_eq!(notes.len(), 1);
    match &notes[0] {
        Notification::TransactionAllowed(e) => assert_eq!(e.signature, [7u8; 64]),
        other => panic!("unexpected notification {:?}", other),
    }
}

#[test]
fn anomaly_while_probing_below_threshold_keeps_probing() {
    let mut s = fresh_shield();
    let mut cfg = base_config();
    cfg.anomaly_threshold = 5;
    s.update_config(cfg, authority()).unwrap();
    s.trigger_circuit_breaker("drill".to_string(), authority(), 1000).unwrap();
    let (result, _) = s.record_transaction(&tx(2000), 1070);
    assert_eq!(result, TransactionResult::Flagged);
    assert_eq!(s.state, CircuitState::HalfOpen);
    assert_eq!(s.anomaly_count, 1);
}

#[test]
fn blocked_verdict_while_probing_keeps_probing_and_counts() {
    let bad = Address::new(0, 9);
    let mut cfg = base_config();
    cfg.blocked_programs = vec![bad];
    cfg.anomaly_threshold = 5;
    let mut s = Shield::new(authority(), wallet(), cfg, 100);
    s.trigger_circuit_breaker("drill".to_string(), authority(), 1000).unwrap();
    let bad_tx = TransactionRecord { signature: [7u8; 64], program_id: bad, value: 1, tx_type: 0 };
    let (result, _) = s.record_transaction(&bad_tx, 1070);
    assert_eq!(result, TransactionResult::Blocked);
    assert_eq!(s.state, CircuitState::HalfOpen);
    assert_eq!(s.blocked_transactions, 1);
    assert_eq!(s.total_transactions, 1);
}

#[test]
fn blocklisted_destination_is_blocked_and_counted_while_closed() {
    let bad = Address::new(0, 9);
    let mut cfg = base_config();
    cfg.blocked_programs = vec![bad];
    let mut s = Shield::new(authority(), wallet(), cfg, 100);
    let bad_tx = TransactionRecord { signature: [7u8; 64], program_id: bad, value: 1, tx_type: 0 };
    let (result, notes) = s.record_transaction(&bad_tx, 1000);
    assert_eq!(result, TransactionResult::Blocked);
    assert_eq!(s.state, CircuitState::Closed);
    assert_eq!(s.blocked_transactions, 1);
    assert_eq!(s.total_transactions, 1);
    match &notes[0] {
        Notification::TransactionBlocked(e) => {
            assert_eq!(e.reason, BlockReason::DestinationBlocklisted)
        }
        other => panic!("unexpected notification {:?}", other),
    }
}

#[test]
fn manual_trigger_opens_from_any_state() {
    let mut s = fresh_shield();
    let notes = s.trigger_circuit_breaker("audit".to_string(), authority(), 1000).unwrap();
    assert_eq!(s.state, CircuitState::Open);
    assert_eq!(s.last_triggered_at, 1000);
    assert_eq!(s.cooldown_ends_at, 1060);
    assert_eq!(notes.len(), 2);
    match &notes[1] {
        Notification::ManualTrigger(e) => {
            assert_eq!(e.triggered_by, authority());
            assert_eq!(e.reason, "audit".to_string());
        }
        other => panic!("unexpected notification {:?}", other),
    }
    // Already open: triggering again refreshes the cooldown.
    s.trigger_circuit_breaker("again".to_string(), authority(), 2000).unwrap();
    assert_eq!(s.state, CircuitState::Open);
    assert_eq!(s.cooldown_ends_at, 2060);
}

#[test]
fn manual_trigger_keeps_the_anomaly_count() {
    let mut s = fresh_shield();
    s.record_transaction(&tx(2000), 1000);
    assert_eq!(s.anomaly_count, 1);
    s.trigger_circuit_breaker("audit".to_string(), authority(), 1000).unwrap();
    assert_eq!(s.anomaly_count, 1);
}

#[test]
fn reset_closes_and_clears_and_is_idempotent() {
    let mut s = fresh_shield();
    s.record_transaction(&tx(2000), 1000);
    s.record_transaction(&tx(2000), 1000);
    s.record_transaction(&tx(10), 1010);
    let notes = s.reset_circuit_breaker(authority()).unwrap();
    assert_eq!(s.state, CircuitState::Closed);
    assert_eq!(s.anomaly_count, 0);
    assert_eq!(s.cooldown_ends_at, 0);
    assert_eq!(s.total_transactions, 2);
    assert_eq!(s.blocked_transactions, 1);
    assert_eq!(notes.len(), 1);
    match &notes[0] {
        Notification::CircuitBreakerReset(e) => assert_eq!(e.reset_by, authority()),
        other => panic!("unexpected notification {:?}", other),
    }
    let first = s.clone();
    s.reset_circuit_breaker(authority()).unwrap();
    assert_eq!(s, first);
}

#[test]
fn update_config_replaces_wholesale_and_keeps_counters() {
    let mut s = fresh_shield();
    s.record_transaction(&tx(2000), 1000);
    let new_cfg = ShieldConfig {
        max_transaction_value: 9000,
        daily_spend_limit: 1,
        approval_threshold: 8000,
        anomaly_threshold: 7,
        time_window_seconds: 60,
        cooldown_seconds: 120,
        allowed_programs: vec![Address::new(1, 1)],
        blocked_programs: vec![Address::new(2, 2)],
    };
    let expected = ShieldConfig {
        max_transaction_value: 9000,
        daily_spend_limit: 1,
        approval_threshold: 8000,
        anomaly_threshold: 7,
        time_window_seconds: 60,
        cooldown_seconds: 120,
        allowed_programs: vec![Address::new(1, 1)],
        blocked_programs: vec![Address::new(2, 2)],
    };
    let notes = s.update_config(new_cfg, authority()).unwrap();
    assert_eq!(s.config, expected);
    assert_eq!(s.anomaly_count, 1);
    assert_eq!(s.total_transactions, 1);
    assert_eq!(s.state, CircuitState::Closed);
    match &notes[0] {
        Notification::ConfigUpdated(e) => assert_eq!(e.config, expected),
        other => panic!("unexpected notification {:?}", other),
    }
}

#[test]
fn administrative_calls_by_a_stranger_are_refused_without_state_change() {
    let stranger = Address::new(9, 9);
    let mut s = fresh_shield();
    s.record_transaction(&tx(2000), 1000);
    let before = s.clone();

    let r = s.update_config(base_config(), stranger);
    assert_eq!(r, Err(ShieldError::Unauthorized));
    assert_eq!(s, before);

    let r = s.trigger_circuit_breaker("no".to_string(), stranger, 1000);
    assert_eq!(r, Err(ShieldError::Unauthorized));
    assert_eq!(s, before);

    let r = s.reset_circuit_breaker(stranger);
    assert_eq!(r, Err(ShieldError::Unauthorized));
    assert_eq!(s, before);
}

#[test]
fn lowering_the_threshold_by_reconfiguration_trips_on_the_next_anomaly() {
    let mut s = fresh_shield();
    s.record_transaction(&tx(2000), 1000);
    assert_eq!(s.anomaly_count, 1);
    let mut cfg = base_config();
    cfg.anomaly_threshold = 1;
    s.update_config(cfg, authority()).unwrap();
    assert_eq!(s.state, CircuitState::Closed);
    let (result, _) = s.record_transaction(&tx(2000), 1500);
    assert_eq!(result, TransactionResult::Flagged);
    assert_eq!(s.state, CircuitState::Open);
    assert_eq!(s.anomaly_count, 2);
    assert_eq!(s.cooldown_ends_at, 1560);
}

#[test]
fn zero_threshold_trips_on_the_first_anomaly() {
    let mut cfg = base_config();
    cfg.anomaly_threshold = 0;
    let mut s = Shield::new(authority(), wallet(), cfg, 100);
    let (result, _) = s.record_transaction(&tx(2000), 1000);
    assert_eq!(result, TransactionResult::Flagged);
    assert_eq!(s.state, CircuitState::Open);
    assert_eq!(s.anomaly_count, 1);
}

#[test]
fn reopened_breaker_blocks_again_until_its_new_cooldown_ends() {
    let mut s = fresh_shield();
    s.record_transaction(&tx(2000), 1000);
    s.record_transaction(&tx(2000), 1000);
    // Probe fails with another anomaly: the breaker re-trips at the probe time.
    let (result, _) = s.record_transaction(&tx(2000), 1070);
    assert_eq!(result, TransactionResult::Flagged);
    assert_eq!(s.state, CircuitState::Open);
    assert_eq!(s.last_triggered_at, 1070);
    assert_eq!(s.cooldown_ends_at, 1130);
    let (result, _) = s.record_transaction(&tx(10), 1100);
    assert_eq!(result, TransactionResult::Blocked);
}
