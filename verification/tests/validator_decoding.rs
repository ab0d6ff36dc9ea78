//! Registration envelope decoding and commit finalization.

use pow_migration::types::PoWTransaction;
use pow_migration::validators::{decode_validators, finalize_commits, get_validators};

fn burn_str() -> String {
    nimiq_keys::Address::burn_address().to_user_friendly_address()
}

fn friendly(bytes: &[u8]) -> String {
    nimiq_keys::Address::from(bytes).to_user_friendly_address()
}

fn tx(from: &str, value: u64, block_number: u32, data: Option<String>) -> PoWTransaction {
    PoWTransaction {
        from_address: from.to_string(),
        from_type: 0,
        to_address: burn_str(),
        to_type: 0,
        value,
        fee: 0,
        block_number,
        data,
        proof: None,
        validity_start_height: 0,
        network_id: 42,
        flags: 0,
    }
}

fn tag1_payload(signing_key: &[u8], address: &[u8]) -> Vec<u8> {
    let mut d = vec![1u8];
    d.extend_from_slice(&[0u8; 11]);
    d.extend_from_slice(signing_key);
    d.extend_from_slice(address);
    assert_eq!(d.len(), 64);
    d
}

fn shard_payload(tag: u8, shard: &[u8]) -> Vec<u8> {
    let mut d = vec![tag];
    d.extend_from_slice(&[0u8; 6]);
    d.extend_from_slice(shard);
    assert!(d.len() >= 64);
    d
}

fn envelope(sender: &str, signing_key: &[u8], address: &[u8], shards: &[Vec<u8>]) -> Vec<PoWTransaction> {
    let mut txns = vec![tx(sender, 1, 10, Some(hex::encode(tag1_payload(signing_key, address))))];
    for (i, shard) in shards.iter().enumerate() {
        txns.push(tx(sender, 1, 11 + i as u32, Some(hex::encode(shard_payload(2 + i as u8, shard)))));
    }
    txns
}

fn sample_shards() -> Vec<Vec<u8>> {
    (0u8..5).map(|k| vec![k + 10; 57]).collect()
}

#[test]
fn decode_six_tag_envelope() {
    let signing_key = [7u8; 32];
    let address = [42u8; 20];
    let sender = friendly(&[1u8; 20]);
    let shards = sample_shards();
    let txns = envelope(&sender, &signing_key, &address, &shards);
    let candidates = decode_validators(&txns);
    assert_eq!(candidates.len(), 1);
    assert_eq!(candidates[0].address, address.to_vec());
    assert_eq!(candidates[0].signing_key, signing_key.to_vec());
    let mut expected_voting_key = Vec::new();
    for shard in &shards {
        expected_voting_key.extend_from_slice(shard);
    }
    assert_eq!(candidates[0].voting_key, expected_voting_key);
}

#[test]
fn decode_is_order_independent() {
    let signing_key = [9u8; 32];
    let address = [3u8; 20];
    let sender = friendly(&[2u8; 20]);
    let txns = envelope(&sender, &signing_key, &address, &sample_shards());
    let mut reordered = txns.clone();
    reordered.reverse();
    let a = decode_validators(&txns);
    let b = decode_validators(&reordered);
    assert_eq!(a, b);
    assert_eq!(a.len(), 1);
}

#[test]
fn short_payload_is_ignored() {
    let sender = friendly(&[4u8; 20]);
    // A 63-byte tag-2 payload must not fill the slot.
    let mut txns = envelope(&sender, &[1u8; 32], &[5u8; 20], &sample_shards());
    txns[1] = tx(&sender, 1, 11, Some(hex::encode(vec![2u8; 63])));
    assert_eq!(decode_validators(&txns).len(), 0);
}

#[test]
fn later_tag_replaces_earlier() {
    let sender = friendly(&[6u8; 20]);
    let mut txns = envelope(&sender, &[1u8; 32], &[5u8; 20], &sample_shards());
    let replacement = vec![99u8; 57];
    txns.push(tx(&sender, 1, 20, Some(hex::encode(shard_payload(2, &replacement)))));
    let candidates = decode_validators(&txns);
    assert_eq!(candidates.len(), 1);
    assert_eq!(&candidates[0].voting_key[..57], &replacement[..]);
}

fn commit_tx(from: &str, value: u64, block_number: u32, validator_address: &[u8]) -> PoWTransaction {
    let text = friendly(validator_address);
    tx(from, value, block_number, Some(hex::encode(text.as_bytes())))
}

#[test]
fn commit_finalizes_candidate() {
    let deposit = 10u64;
    let address = [42u8; 20];
    let sender = friendly(&[1u8; 20]);
    let mut txns = envelope(&sender, &[7u8; 32], &address, &sample_shards());
    txns.push(commit_tx(&sender, deposit, 30, &address));
    let validators = get_validators(txns, 100, deposit);
    assert_eq!(validators.len(), 1);
    assert_eq!(validators[0].validator_address, address.to_vec());
    assert_eq!(validators[0].reward_address, address.to_vec());
    assert_eq!(validators[0].balance, deposit);
}

#[test]
fn commit_below_deposit_never_finalizes() {
    let deposit = 10u64;
    let address = [42u8; 20];
    let sender = friendly(&[1u8; 20]);
    let mut txns = envelope(&sender, &[7u8; 32], &address, &sample_shards());
    txns.push(commit_tx(&sender, deposit - 1, 30, &address));
    assert_eq!(get_validators(txns, 100, deposit).len(), 0);
}

#[test]
fn missing_tag_never_finalizes() {
    let deposit = 10u64;
    let address = [42u8; 20];
    let sender = friendly(&[1u8; 20]);
    let mut txns = envelope(&sender, &[7u8; 32], &address, &sample_shards());
    // Drop the tag-6 transaction; even a valid commit must not finalize.
    txns.remove(5);
    txns.push(commit_tx(&sender, deposit, 30, &address));
    txns.push(commit_tx(&sender, deposit, 31, &address));
    assert_eq!(get_validators(txns, 100, deposit).len(), 0);
}

#[test]
fn unknown_commit_is_ignored() {
    let deposit = 10u64;
    let address = [42u8; 20];
    let sender = friendly(&[1u8; 20]);
    let mut txns = envelope(&sender, &[7u8; 32], &address, &sample_shards());
    txns.push(commit_tx(&sender, deposit, 30, &[13u8; 20]));
    assert_eq!(get_validators(txns, 100, deposit).len(), 0);
}

#[test]
fn duplicate_commit_finalizes_once() {
    let deposit = 10u64;
    let address = [42u8; 20];
    let sender = friendly(&[1u8; 20]);
    let mut txns = envelope(&sender, &[7u8; 32], &address, &sample_shards());
    txns.push(commit_tx(&sender, deposit, 30, &address));
    txns.push(commit_tx(&sender, deposit, 31, &address));
    assert_eq!(get_validators(txns, 100, deposit).len(), 1);
}

#[test]
fn transactions_after_cutting_block_are_ignored() {
    let deposit = 10u64;
    let address = [42u8; 20];
    let sender = friendly(&[1u8; 20]);
    let mut txns = envelope(&sender, &[7u8; 32], &address, &sample_shards());
    // The commit sits after the cutting height and must not count.
    txns.push(commit_tx(&sender, deposit, 101, &address));
    assert_eq!(get_validators(txns, 100, deposit).len(), 0);
}

#[test]
fn duplicate_address_keeps_one_candidate() {
    let deposit = 10u64;
    let address = [42u8; 20];
    let s1 = friendly(&[1u8; 20]);
    let s2 = friendly(&[2u8; 20]);
    // Both senders register the same validator address.
    let mut txns = envelope(&s1, &[7u8; 32], &address, &sample_shards());
    txns.extend(envelope(&s2, &[8u8; 32], &address, &sample_shards()));
    let candidates = decode_validators(&txns);
    assert_eq!(candidates.len(), 1);
    // The later registration wins.
    assert_eq!(candidates[0].signing_key, vec![8u8; 32]);
    // Even two qualifying commits finalize only one validator.
    txns.push(commit_tx(&s1, deposit, 30, &address));
    txns.push(commit_tx(&s2, deposit, 31, &address));
    let validators = get_validators(txns, 100, deposit);
    assert_eq!(validators.len(), 1);
    assert_eq!(validators[0].validator_address, address.to_vec());
}

#[test]
fn two_senders_decode_independently() {
    let s1 = friendly(&[1u8; 20]);
    let s2 = friendly(&[2u8; 20]);
    let mut txns = envelope(&s1, &[7u8; 32], &[42u8; 20], &sample_shards());
    txns.extend(envelope(&s2, &[8u8; 32], &[43u8; 20], &sample_shards()));
    let candidates = decode_validators(&txns);
    assert_eq!(candidates.len(), 2);
    assert_ne!(candidates[0].address, candidates[1].address);
}

#[test]
fn finalize_commits_keeps_commit_order() {
    let deposit = 10u64;
    let s1 = friendly(&[1u8; 20]);
    let s2 = friendly(&[2u8; 20]);
    let mut txns = envelope(&s1, &[7u8; 32], &[42u8; 20], &sample_shards());
    txns.extend(envelope(&s2, &[8u8; 32], &[43u8; 20], &sample_shards()));
    let candidates = decode_validators(&txns);
    let commits = vec![commit_tx(&s2, deposit, 30, &[43u8; 20]), commit_tx(&s1, deposit, 31, &[42u8; 20])];
    let validators = finalize_commits(candidates, &commits, deposit);
    assert_eq!(validators.len(), 2);
    assert_eq!(validators[0].validator_address, vec![43u8; 20]);
    assert_eq!(validators[1].validator_address, vec![42u8; 20]);
}
