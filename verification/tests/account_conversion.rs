//! Legacy account conversion and the chunked account-tree scan.

use pow_migration::accounts::{
    get_accounts, pos_anyhash_from_hash_root, pos_basic_account_from_account, pos_htlc_account_from_account,
    pos_vesting_account_from_account, rebase_time, AccountsTreeChunk, AnyHash, PoWAccount, PoWBasicAccount,
    PoWHTLCAccount, PoWVestingAccount,
};
use pow_migration::types::{Error, PoWBlock};

const BLOCK_TIME_MS: u64 = 60_000;

fn acct_friendly(bytes: &[u8]) -> String {
    nimiq_keys::Address::from(bytes).to_user_friendly_address()
}

fn cut_block() -> PoWBlock {
    PoWBlock { number: 1000, hash: "aa".repeat(32), timestamp: 1_700_000_000 }
}

fn vesting(start: u32) -> PoWVestingAccount {
    PoWVestingAccount {
        address: acct_friendly(&[1u8; 20]),
        owner_address: acct_friendly(&[2u8; 20]),
        balance: 1_000,
        vesting_start: start,
        vesting_step_blocks: 10,
        vesting_step_amount: 100,
        vesting_total_amount: 1_000,
    }
}

#[test]
fn basic_account_converts() {
    let a = PoWBasicAccount { address: acct_friendly(&[9u8; 20]), balance: 500 };
    let g = pos_basic_account_from_account(&a).unwrap();
    assert_eq!(g.address, vec![9u8; 20]);
    assert_eq!(g.balance, 500);
}

#[test]
fn basic_account_rejects_bad_address() {
    let a = PoWBasicAccount { address: "not an address".to_string(), balance: 500 };
    assert_eq!(pos_basic_account_from_account(&a).unwrap_err(), Error::Address);
}

#[test]
fn basic_account_rejects_overflowing_balance() {
    // One above the largest exactly representable coin value.
    let a = PoWBasicAccount { address: acct_friendly(&[9u8; 20]), balance: 9_007_199_254_740_992 };
    assert_eq!(pos_basic_account_from_account(&a).unwrap_err(), Error::Coin);
}

#[test]
fn rebase_time_collapses_past_heights() {
    let cut = cut_block();
    let genesis_ts = 2_000_000_000u64;
    // Start height equal to the cutting height: the cutting timestamp.
    assert_eq!(rebase_time(1000, &cut, BLOCK_TIME_MS, genesis_ts).unwrap(), 1_700_000_000);
    // Already matured: also the cutting timestamp.
    assert_eq!(rebase_time(999, &cut, BLOCK_TIME_MS, genesis_ts).unwrap(), 1_700_000_000);
    // Still in the future: block distance times block time past genesis.
    assert_eq!(rebase_time(1003, &cut, BLOCK_TIME_MS, genesis_ts).unwrap(), 3 * BLOCK_TIME_MS + genesis_ts);
}

#[test]
fn vesting_start_at_cutting_height() {
    let g = pos_vesting_account_from_account(&vesting(1000), &cut_block(), BLOCK_TIME_MS, 2_000_000_000).unwrap();
    assert_eq!(g.start_time, 1_700_000_000);
    assert_eq!(g.time_step, 10 * BLOCK_TIME_MS);
    assert_eq!(g.step_amount, 100);
    assert_eq!(g.total_amount, 1_000);
}

#[test]
fn vesting_start_after_cutting_height() {
    let g = pos_vesting_account_from_account(&vesting(1005), &cut_block(), BLOCK_TIME_MS, 2_000_000_000).unwrap();
    assert_eq!(g.start_time, 5 * BLOCK_TIME_MS + 2_000_000_000);
}

#[test]
fn vesting_start_before_cutting_height() {
    let g = pos_vesting_account_from_account(&vesting(10), &cut_block(), BLOCK_TIME_MS, 2_000_000_000).unwrap();
    assert_eq!(g.start_time, 1_700_000_000);
}

#[test]
fn anyhash_selects_algorithm_by_tag() {
    let root32 = "ab".repeat(32);
    let root64 = "cd".repeat(64);
    assert_eq!(pos_anyhash_from_hash_root(&root32, 1).unwrap(), AnyHash::Blake2b(vec![0xabu8; 32]));
    assert_eq!(pos_anyhash_from_hash_root(&root32, 3).unwrap(), AnyHash::Sha256(vec![0xabu8; 32]));
    assert_eq!(pos_anyhash_from_hash_root(&root64, 4).unwrap(), AnyHash::Sha512(vec![0xcdu8; 64]));
}

#[test]
fn anyhash_rejects_unknown_tag() {
    assert_eq!(pos_anyhash_from_hash_root(&"ab".repeat(32), 2).unwrap_err(), Error::InvalidValue);
}

#[test]
fn anyhash_rejects_bad_hex() {
    assert_eq!(pos_anyhash_from_hash_root("zz", 3).unwrap_err(), Error::Hex);
    // A digest of the wrong length is refused too.
    assert_eq!(pos_anyhash_from_hash_root(&"ab".repeat(16), 3).unwrap_err(), Error::Hex);
}

fn htlc() -> PoWHTLCAccount {
    PoWHTLCAccount {
        address: acct_friendly(&[1u8; 20]),
        sender_address: acct_friendly(&[2u8; 20]),
        recipient_address: acct_friendly(&[3u8; 20]),
        balance: 700,
        hash_root: "ab".repeat(32),
        hash_algorithm: 3,
        hash_count: 2,
        timeout: 900,
        total_amount: 700,
    }
}

#[test]
fn htlc_converts_with_rebased_timeout() {
    let g = pos_htlc_account_from_account(&htlc(), &cut_block(), BLOCK_TIME_MS, 2_000_000_000).unwrap();
    assert_eq!(g.hash_root, AnyHash::Sha256(vec![0xabu8; 32]));
    assert_eq!(g.hash_count, 2);
    // Timeout 900 lies before the cutting block, so it collapses.
    assert_eq!(g.timeout, 1_700_000_000);
    assert_eq!(g.balance, 700);
}

fn chunk(nodes: Vec<PoWAccount>, tail: &str) -> AccountsTreeChunk {
    AccountsTreeChunk { nodes, tail: tail.to_string() }
}

#[test]
fn get_accounts_partitions_by_kind() {
    let nodes = vec![
        PoWAccount::Basic(PoWBasicAccount { address: acct_friendly(&[9u8; 20]), balance: 500 }),
        PoWAccount::Vesting(vesting(10)),
        PoWAccount::HTLC(htlc()),
    ];
    let chunks = vec![chunk(nodes, "t1"), chunk(vec![], "t1")];
    let g = get_accounts(&chunks, &cut_block(), BLOCK_TIME_MS, 2_000_000_000).unwrap();
    assert_eq!(g.basic_accounts.len(), 1);
    assert_eq!(g.vesting_accounts.len(), 1);
    assert_eq!(g.htlc_accounts.len(), 1);
}

#[test]
fn get_accounts_stops_on_repeated_tail() {
    let node = PoWAccount::Basic(PoWBasicAccount { address: acct_friendly(&[9u8; 20]), balance: 1 });
    // The second chunk repeats the marker it was requested at, so the
    // third chunk must never be processed.
    let chunks = vec![
        chunk(vec![node.clone()], "t1"),
        chunk(vec![node.clone()], "t1"),
        chunk(vec![node.clone()], "t2"),
    ];
    let g = get_accounts(&chunks, &cut_block(), BLOCK_TIME_MS, 2_000_000_000).unwrap();
    assert_eq!(g.basic_accounts.len(), 1);
}

#[test]
fn get_accounts_aborts_on_first_bad_record() {
    let good = PoWAccount::Basic(PoWBasicAccount { address: acct_friendly(&[9u8; 20]), balance: 1 });
    let bad = PoWAccount::Basic(PoWBasicAccount { address: "bad".to_string(), balance: 1 });
    let chunks = vec![chunk(vec![good, bad], "t1")];
    assert_eq!(get_accounts(&chunks, &cut_block(), BLOCK_TIME_MS, 2_000_000_000).unwrap_err(), Error::Address);
}

#[test]
fn conversion_is_idempotent() {
    let nodes = vec![
        PoWAccount::Basic(PoWBasicAccount { address: acct_friendly(&[9u8; 20]), balance: 500 }),
        PoWAccount::Vesting(vesting(1005)),
        PoWAccount::HTLC(htlc()),
    ];
    let chunks = vec![chunk(nodes, "t1"), chunk(vec![], "t1")];
    let first = get_accounts(&chunks, &cut_block(), BLOCK_TIME_MS, 2_000_000_000).unwrap();
    let second = get_accounts(&chunks, &cut_block(), BLOCK_TIME_MS, 2_000_000_000).unwrap();
    assert_eq!(first, second);
}
