//! The genesis assembler and the legacy transaction conversion.

use pow_migration::accounts::GenesisAccounts;
use pow_migration::genesis::{get_pos_genesis, GenesisConfig, PoWRegistrationWindow};
use pow_migration::history::{from_pow_network_id, from_pow_transaction, get_account_type, AccountType, NetworkId};
use pow_migration::types::{Error, PoWBlock, PoWTransaction};

fn empty_accounts() -> GenesisAccounts {
    GenesisAccounts { basic_accounts: vec![], vesting_accounts: vec![], htlc_accounts: vec![] }
}

fn window(final_hash: &str) -> PoWRegistrationWindow {
    PoWRegistrationWindow {
        validator_start: 100,
        pre_stake_start: 200,
        pre_stake_end: 300,
        final_block: final_hash.to_string(),
        confirmations: 10,
    }
}

fn assemble(cut_hash: &str, genesis_hash: &str, history_root: Option<Vec<u8>>) -> Result<GenesisConfig, Error> {
    let cut = PoWBlock { number: 1000, hash: cut_hash.to_string(), timestamp: 1_700_000_000 };
    let pow_genesis = PoWBlock { number: 1, hash: genesis_hash.to_string(), timestamp: 0 };
    get_pos_genesis(
        &cut,
        &pow_genesis,
        &window(cut_hash),
        "f00d".to_string(),
        history_root,
        empty_accounts(),
        vec![],
        None,
        60_000,
    )
}

#[test]
fn assembles_genesis_record() {
    let g = assemble(&"ab".repeat(32), &"cd".repeat(32), Some(vec![1u8; 32])).unwrap();
    assert_eq!(g.seed_message, "Albatross TestNet");
    assert_eq!(g.vrf_seed, "f00d");
    assert_eq!(g.parent_hash, vec![0xabu8; 32]);
    assert_eq!(g.parent_election_hash, vec![0xcdu8; 32]);
    assert_eq!(g.history_root, Some(vec![1u8; 32]));
    assert_eq!(g.block_number, 1000);
    // Ten confirmations of one minute each past the cutting timestamp.
    assert_eq!(g.timestamp, 1_700_000_000 + 10 * 60_000);
    assert!(g.validators.is_empty());
    assert!(g.stakers.is_none());
}

#[test]
fn wrong_cutting_block_is_rejected() {
    let cut = PoWBlock { number: 1000, hash: "ab".repeat(32), timestamp: 1_700_000_000 };
    let pow_genesis = PoWBlock { number: 1, hash: "cd".repeat(32), timestamp: 0 };
    let r = get_pos_genesis(
        &cut,
        &pow_genesis,
        &window(&"ee".repeat(32)),
        String::new(),
        None,
        empty_accounts(),
        vec![],
        None,
        60_000,
    );
    assert_eq!(r.unwrap_err(), Error::UnknownBlock);
}

#[test]
fn malformed_parent_hash_is_rejected() {
    assert_eq!(assemble("zz", &"cd".repeat(32), None).unwrap_err(), Error::Hex);
    assert_eq!(assemble(&"ab".repeat(32), "cdcd", None).unwrap_err(), Error::Hex);
}

#[test]
fn short_history_root_is_rejected() {
    assert_eq!(assemble(&"ab".repeat(32), &"cd".repeat(32), Some(vec![1u8; 31])).unwrap_err(), Error::InvalidValue);
}

#[test]
fn account_type_tags_map_exactly() {
    assert_eq!(get_account_type(&0).unwrap(), AccountType::Basic);
    assert_eq!(get_account_type(&1).unwrap(), AccountType::Vesting);
    assert_eq!(get_account_type(&2).unwrap(), AccountType::HTLC);
    assert_eq!(get_account_type(&3).unwrap_err(), Error::InvalidValue);
}

#[test]
fn network_id_tags_map_exactly() {
    assert_eq!(from_pow_network_id(1).unwrap(), NetworkId::Test);
    assert_eq!(from_pow_network_id(42).unwrap(), NetworkId::Main);
    assert_eq!(from_pow_network_id(7).unwrap_err(), Error::InvalidValue);
}

fn legacy_tx() -> PoWTransaction {
    PoWTransaction {
        from_address: nimiq_keys::Address::from(&[1u8; 20][..]).to_user_friendly_address(),
        from_type: 0,
        to_address: nimiq_keys::Address::from(&[2u8; 20][..]).to_user_friendly_address(),
        to_type: 1,
        value: 5_000,
        fee: 3,
        block_number: 77,
        data: Some("0102".to_string()),
        proof: Some("aabb".to_string()),
        validity_start_height: 70,
        network_id: 42,
        flags: 0,
    }
}

#[test]
fn converts_legacy_transaction() {
    let t = from_pow_transaction(&legacy_tx()).unwrap();
    assert_eq!(t.sender, vec![1u8; 20]);
    assert_eq!(t.sender_type, AccountType::Basic);
    assert_eq!(t.recipient, vec![2u8; 20]);
    assert_eq!(t.recipient_type, AccountType::Vesting);
    assert_eq!(t.value, 5_000);
    assert_eq!(t.fee, 3);
    assert_eq!(t.data, vec![1u8, 2u8]);
    assert_eq!(t.proof, vec![0xaau8, 0xbbu8]);
    assert_eq!(t.validity_start_height, 70);
    assert_eq!(t.network_id, NetworkId::Main);
    assert_eq!(t.flags, 0);
}

#[test]
fn transaction_conversion_rejects_each_malformed_field() {
    let mut t = legacy_tx();
    t.from_address = "bogus".to_string();
    assert_eq!(from_pow_transaction(&t).unwrap_err(), Error::Address);

    let mut t = legacy_tx();
    t.from_type = 9;
    assert_eq!(from_pow_transaction(&t).unwrap_err(), Error::InvalidValue);

    let mut t = legacy_tx();
    t.value = 9_007_199_254_740_992;
    assert_eq!(from_pow_transaction(&t).unwrap_err(), Error::Coin);

    let mut t = legacy_tx();
    t.data = Some("xy".to_string());
    assert_eq!(from_pow_transaction(&t).unwrap_err(), Error::Hex);

    let mut t = legacy_tx();
    t.network_id = 7;
    assert_eq!(from_pow_transaction(&t).unwrap_err(), Error::InvalidValue);

    let mut t = legacy_tx();
    t.flags = 4;
    assert_eq!(from_pow_transaction(&t).unwrap_err(), Error::InvalidValue);
}
