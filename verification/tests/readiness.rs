//! Readiness reporting, the stake-weighted quorum, and the controller's
//! state machine.

use pow_migration::monitor::{
    check_validators_ready, generate_ready_tx, get_ready_txns, monitor_step, MonitorAction, MonitorEvent,
    MonitorState, ValidatorsReadiness,
};
use pow_migration::policy::MigrationPolicy;
use pow_migration::types::PoWTransaction;
use pow_migration::validators::GenesisValidator;

fn policy() -> MigrationPolicy {
    MigrationPolicy {
        pow_block_time_ms: 60_000,
        validator_deposit: 10,
        ready_percentage: 80,
        activation_height: 100,
        epoch_length: 1_000,
    }
}

fn burn_addr() -> String {
    nimiq_keys::Address::burn_address().to_user_friendly_address()
}

fn report_tx(from: &str, to: &str, value: u64, block_number: u32) -> PoWTransaction {
    PoWTransaction {
        from_address: from.to_string(),
        from_type: 0,
        to_address: to.to_string(),
        to_type: 0,
        value,
        fee: 0,
        block_number,
        data: None,
        proof: None,
        validity_start_height: 0,
        network_id: 42,
        flags: 0,
    }
}

fn validator(stake: u64, seed: u8) -> GenesisValidator {
    GenesisValidator {
        validator_address: vec![seed; 20],
        signing_key: vec![seed; 32],
        voting_key: vec![seed; 285],
        reward_address: vec![seed; 20],
        balance: stake,
    }
}

#[test]
fn ready_tx_targets_burn_address() {
    let tx = generate_ready_tx("NQ28 GSPY V07Q DJTK Y8TG DFYD KR5Q 9KBF HV5A".to_string());
    assert_eq!(tx.to, "NQ07 0000 0000 0000 0000 0000 0000 0000 0000");
    assert_eq!(tx.from, "NQ28 GSPY V07Q DJTK Y8TG DFYD KR5Q 9KBF HV5A");
    assert_eq!(tx.value, 1);
    assert_eq!(tx.fee, 0);
}

#[test]
fn ready_txns_filter_by_window_and_shape() {
    let me = "NQ28 GSPY V07Q DJTK Y8TG DFYD KR5Q 9KBF HV5A";
    let burn = burn_addr();
    let txns = vec![
        report_tx(me, &burn, 1, 150),   // kept
        report_tx(me, &burn, 1, 100),   // at the window start: dropped
        report_tx(me, &burn, 1, 200),   // at the window end: dropped
        report_tx(me, &burn, 2, 160),   // wrong value
        report_tx(me, me, 1, 160),      // wrong recipient
        report_tx(me, &burn, 1, 199),   // kept
    ];
    let kept = get_ready_txns(txns, 100, 200);
    assert_eq!(kept.len(), 2);
    assert_eq!(kept[0].block_number, 150);
    assert_eq!(kept[1].block_number, 199);
}

#[test]
fn quorum_reached_at_exact_threshold() {
    let burn = burn_addr();
    let validators = vec![validator(80, 1), validator(20, 2)];
    // Only the first validator reported; its 80 of 100 total is exactly
    // the 80 percent threshold, which must count as reached.
    let reports = vec![vec![report_tx("a", &burn, 1, 150)], vec![]];
    let r = check_validators_ready(&validators, &reports, &policy());
    assert_eq!(r, ValidatorsReadiness::Ready(80));
}

#[test]
fn quorum_missed_below_threshold() {
    let burn = burn_addr();
    let validators = vec![validator(79, 1), validator(21, 2)];
    let reports = vec![vec![report_tx("a", &burn, 1, 150)], vec![]];
    let r = check_validators_ready(&validators, &reports, &policy());
    assert_eq!(r, ValidatorsReadiness::NotReady(79));
}

#[test]
fn quorum_threshold_is_exact() {
    let burn = burn_addr();
    // 799 of 999 is 79.98 percent: just below the threshold, so no
    // quorum, even though the floor of 80 percent of 999 is 799.
    let validators = vec![validator(799, 1), validator(200, 2)];
    let reports = vec![vec![report_tx("a", &burn, 1, 150)], vec![]];
    let r = check_validators_ready(&validators, &reports, &policy());
    assert_eq!(r, ValidatorsReadiness::NotReady(799));
    // 800 of 1000 is exactly 80 percent and counts as reached.
    let validators = vec![validator(800, 1), validator(200, 2)];
    let reports = vec![vec![report_tx("a", &burn, 1, 150)], vec![]];
    let r = check_validators_ready(&validators, &reports, &policy());
    assert_eq!(r, ValidatorsReadiness::Ready(800));
}

#[test]
fn report_before_activation_does_not_count() {
    let burn = burn_addr();
    let validators = vec![validator(100, 1)];
    let reports = vec![vec![report_tx("a", &burn, 1, 100)]];
    let r = check_validators_ready(&validators, &reports, &policy());
    assert_eq!(r, ValidatorsReadiness::NotReady(0));
}

#[test]
fn controller_waits_for_consensus() {
    let p = policy();
    let (st, act) = monitor_step(MonitorState::AwaitingConsensus, MonitorEvent::SyncStatus { established: false }, &p, 10);
    assert_eq!(st, MonitorState::AwaitingConsensus);
    assert_eq!(act, MonitorAction::Wait);
    let (st, _) = monitor_step(MonitorState::AwaitingConsensus, MonitorEvent::SyncStatus { established: true }, &p, 10);
    assert_eq!(st, MonitorState::PollingReadiness { reported_ready: false, next_election_block: 0 });
}

#[test]
fn controller_sends_report_once_per_epoch() {
    let p = policy();
    let st = MonitorState::PollingReadiness { reported_ready: false, next_election_block: 0 };
    let tick = MonitorEvent::ReadinessTick {
        height: 1_500,
        own_report_seen: false,
        readiness: ValidatorsReadiness::NotReady(0),
    };
    let (st, act) = monitor_step(st, tick, &p, 10);
    assert_eq!(act, MonitorAction::SendReadyTx);
    assert_eq!(st, MonitorState::PollingReadiness { reported_ready: true, next_election_block: 2_000 });
    // A second tick in the same epoch sends nothing.
    let (st, act) = monitor_step(st, tick, &p, 10);
    assert_eq!(act, MonitorAction::Wait);
    assert_eq!(st, MonitorState::PollingReadiness { reported_ready: true, next_election_block: 2_000 });
}

#[test]
fn epoch_rollover_resets_the_report() {
    let p = policy();
    // Reported in the epoch before block 2000; the next tick already
    // sees the following epoch, so the flag resets and a new report goes
    // out.
    let st = MonitorState::PollingReadiness { reported_ready: true, next_election_block: 2_000 };
    let tick = MonitorEvent::ReadinessTick {
        height: 2_100,
        own_report_seen: false,
        readiness: ValidatorsReadiness::NotReady(0),
    };
    let (st, act) = monitor_step(st, tick, &p, 10);
    assert_eq!(act, MonitorAction::SendReadyTx);
    assert_eq!(st, MonitorState::PollingReadiness { reported_ready: true, next_election_block: 3_000 });
}

#[test]
fn own_report_in_window_suppresses_sending() {
    let p = policy();
    let st = MonitorState::PollingReadiness { reported_ready: false, next_election_block: 0 };
    let tick = MonitorEvent::ReadinessTick {
        height: 1_500,
        own_report_seen: true,
        readiness: ValidatorsReadiness::NotReady(0),
    };
    let (st, act) = monitor_step(st, tick, &p, 10);
    assert_eq!(act, MonitorAction::Wait);
    assert_eq!(st, MonitorState::PollingReadiness { reported_ready: true, next_election_block: 2_000 });
}

#[test]
fn quorum_selects_and_confirms_candidate() {
    let p = policy();
    let st = MonitorState::PollingReadiness { reported_ready: true, next_election_block: 2_000 };
    let tick = MonitorEvent::ReadinessTick {
        height: 1_600,
        own_report_seen: true,
        readiness: ValidatorsReadiness::Ready(80),
    };
    let (st, _) = monitor_step(st, tick, &p, 10);
    assert_eq!(st, MonitorState::QuorumReached);
    // The candidate is the next epoch boundary strictly after the
    // height observed on the following poll.
    let (st, _) = monitor_step(st, MonitorEvent::HeightTick { height: 1_700 }, &p, 10);
    assert_eq!(st, MonitorState::CandidateSelected { candidate: 2_000 });
    // Not enough confirmations yet.
    let (st, act) = monitor_step(st, MonitorEvent::HeightTick { height: 2_009 }, &p, 10);
    assert_eq!(st, MonitorState::CandidateSelected { candidate: 2_000 });
    assert_eq!(act, MonitorAction::Wait);
    // A confirmation depth of 10 past the candidate confirms it.
    let (st, act) = monitor_step(st, MonitorEvent::HeightTick { height: 2_010 }, &p, 10);
    assert_eq!(st, MonitorState::CandidateConfirmed { candidate: 2_000 });
    assert_eq!(act, MonitorAction::Proceed);
}
