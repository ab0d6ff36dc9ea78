//! End-to-end scenario: a small legacy chain with three accounts and
//! two fully registered, committed and ready validators is migrated
//! into a complete genesis record.

use pow_migration::accounts::{
    get_accounts, AccountsTreeChunk, PoWAccount, PoWBasicAccount, PoWHTLCAccount, PoWVestingAccount,
};
use pow_migration::genesis::{get_pos_genesis, PoWRegistrationWindow};
use pow_migration::monitor::{
    check_validators_ready, monitor_step, MonitorAction, MonitorEvent, MonitorState, ValidatorsReadiness,
};
use pow_migration::policy::MigrationPolicy;
use pow_migration::types::{PoWBlock, PoWTransaction};
use pow_migration::validators::get_validators;

fn scenario_policy() -> MigrationPolicy {
    MigrationPolicy {
        pow_block_time_ms: 60_000,
        validator_deposit: 10,
        ready_percentage: 80,
        activation_height: 100,
        epoch_length: 1_000,
    }
}

fn friendly_of(bytes: &[u8]) -> String {
    nimiq_keys::Address::from(bytes).to_user_friendly_address()
}

fn burn() -> String {
    nimiq_keys::Address::burn_address().to_user_friendly_address()
}

fn chain_tx(from: &str, to: &str, value: u64, block_number: u32, data: Option<String>) -> PoWTransaction {
    PoWTransaction {
        from_address: from.to_string(),
        from_type: 0,
        to_address: to.to_string(),
        to_type: 0,
        value,
        fee: 0,
        block_number,
        data,
        proof: None,
        validity_start_height: 0,
        network_id: 42,
        flags: 0,
    }
}

fn registration(sender: &str, signing_seed: u8, address: &[u8], at: u32) -> Vec<PoWTransaction> {
    let mut txns = Vec::new();
    let mut tag1 = vec![1u8];
    tag1.extend_from_slice(&[0u8; 11]);
    tag1.extend_from_slice(&[signing_seed; 32]);
    tag1.extend_from_slice(address);
    txns.push(chain_tx(sender, &burn(), 1, at, Some(hex::encode(tag1))));
    for tag in 2u8..=6u8 {
        let mut d = vec![tag];
        d.extend_from_slice(&[0u8; 6]);
        d.extend_from_slice(&[signing_seed + tag; 57]);
        txns.push(chain_tx(sender, &burn(), 1, at + tag as u32, Some(hex::encode(d))));
    }
    txns
}

#[test]
fn three_accounts_two_validators_reach_quorum() {
    let policy = scenario_policy();
    let cut_hash = "ab".repeat(32);
    let cutting_block = PoWBlock { number: 2_000, hash: cut_hash.clone(), timestamp: 1_700_000_000 };
    let pow_genesis = PoWBlock { number: 1, hash: "cd".repeat(32), timestamp: 1_500_000_000 };

    // Two operators register and commit their validators.
    let op1 = friendly_of(&[11u8; 20]);
    let op2 = friendly_of(&[22u8; 20]);
    let v1 = [51u8; 20];
    let v2 = [52u8; 20];
    let mut txns = registration(&op1, 1, &v1, 110);
    txns.extend(registration(&op2, 2, &v2, 120));
    txns.push(chain_tx(&op1, &burn(), 10, 210, Some(hex::encode(friendly_of(&v1).as_bytes()))));
    txns.push(chain_tx(&op2, &burn(), 10, 211, Some(hex::encode(friendly_of(&v2).as_bytes()))));
    let validators = get_validators(txns, cutting_block.number, policy.validator_deposit);
    assert_eq!(validators.len(), 2);
    assert_eq!(validators[0].balance, 10);
    assert_eq!(validators[1].balance, 10);

    // Both validators report ready in the same epoch window; each holds
    // half of the stake, so quorum is reached.
    let reports = vec![
        vec![chain_tx(&friendly_of(&v1), &burn(), 1, 1_500, None)],
        vec![chain_tx(&friendly_of(&v2), &burn(), 1, 1_501, None)],
    ];
    let readiness = check_validators_ready(&validators, &reports, &policy);
    assert_eq!(readiness, ValidatorsReadiness::Ready(20));

    // The controller reaches quorum and confirms the candidate block.
    let st = MonitorState::PollingReadiness { reported_ready: true, next_election_block: 2_000 };
    let tick = MonitorEvent::ReadinessTick { height: 1_600, own_report_seen: true, readiness };
    let (st, _) = monitor_step(st, tick, &policy, 10);
    assert_eq!(st, MonitorState::QuorumReached);
    let (st, _) = monitor_step(st, MonitorEvent::HeightTick { height: 1_700 }, &policy, 10);
    assert_eq!(st, MonitorState::CandidateSelected { candidate: 2_000 });
    let (st, act) = monitor_step(st, MonitorEvent::HeightTick { height: 2_010 }, &policy, 10);
    assert_eq!(st, MonitorState::CandidateConfirmed { candidate: 2_000 });
    assert_eq!(act, MonitorAction::Proceed);

    // The legacy account set: one basic balance, one vesting contract
    // maturing before the cutting block, one SHA-256 time-locked
    // contract.
    let nodes = vec![
        PoWAccount::Basic(PoWBasicAccount { address: friendly_of(&[1u8; 20]), balance: 500 }),
        PoWAccount::Vesting(PoWVestingAccount {
            address: friendly_of(&[2u8; 20]),
            owner_address: friendly_of(&[3u8; 20]),
            balance: 100,
            vesting_start: 500,
            vesting_step_blocks: 10,
            vesting_step_amount: 10,
            vesting_total_amount: 100,
        }),
        PoWAccount::HTLC(PoWHTLCAccount {
            address: friendly_of(&[4u8; 20]),
            sender_address: friendly_of(&[5u8; 20]),
            recipient_address: friendly_of(&[6u8; 20]),
            balance: 300,
            hash_root: "ef".repeat(32),
            hash_algorithm: 3,
            hash_count: 1,
            timeout: 3_000,
            total_amount: 300,
        }),
    ];
    let chunks = vec![
        AccountsTreeChunk { nodes, tail: "t1".to_string() },
        AccountsTreeChunk { nodes: vec![], tail: "t2".to_string() },
    ];
    let pos_genesis_ts = 1_700_000_000 + 10 * 60_000;
    let accounts = get_accounts(&chunks, &cutting_block, policy.pow_block_time_ms, pos_genesis_ts).unwrap();
    assert_eq!(accounts.basic_accounts.len(), 1);
    assert_eq!(accounts.vesting_accounts.len(), 1);
    assert_eq!(accounts.htlc_accounts.len(), 1);
    // The vesting contract matured before the cutting block.
    assert_eq!(accounts.vesting_accounts[0].start_time, 1_700_000_000);

    // Assemble the genesis record around the confirmed cutting block.
    let reg_window = PoWRegistrationWindow {
        validator_start: 100,
        pre_stake_start: 200,
        pre_stake_end: 300,
        final_block: cut_hash,
        confirmations: 10,
    };
    let record = get_pos_genesis(
        &cutting_block,
        &pow_genesis,
        &reg_window,
        "5eed".to_string(),
        Some(vec![7u8; 32]),
        accounts,
        validators,
        None,
        policy.pow_block_time_ms,
    )
    .unwrap();
    assert_eq!(record.validators.len(), 2);
    assert_eq!(record.basic_accounts.len(), 1);
    assert_eq!(record.vesting_accounts.len(), 1);
    assert_eq!(record.htlc_accounts.len(), 1);
    assert!(record.history_root.is_some());
    assert!(!record.history_root.unwrap().is_empty());
    assert_eq!(record.block_number, 2_000);
    assert_eq!(record.timestamp, pos_genesis_ts);
}
