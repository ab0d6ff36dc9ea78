//! The genesis assembler: merge the converted accounts, the finalized
//! validators and stakers, the chosen cutting block and the history
//! commitment root into one immutable genesis record.

use vstd::prelude::*;

use crate::accounts::GenesisAccounts;
use crate::codec::{hex_bytes, hex_decode, hex_ok};
use crate::types::{Error, PoWBlock};
use crate::validators::{opt_bytes_view, GenesisValidator};

verus! {

/// The block windows of one migration, delimited by legacy block
/// heights: validator registrations are read between `validator_start`
/// and `pre_stake_start`, stake registrations between
/// `pre_stake_start` and `pre_stake_end`, and the chain is cut at the
/// block with hash `final_block` once `confirmations` further blocks
/// stand on top of it.
#[derive(Clone, Debug)]
pub struct PoWRegistrationWindow {
    /// First block of the validator registration window.
    pub validator_start: u32,
    /// End of the validator registration window and start of the
    /// pre-stake window.
    pub pre_stake_start: u32,
    /// End of the pre-stake window.
    pub pre_stake_end: u32,
    /// Hash of the cutting block, hex encoded.
    pub final_block: String,
    /// Confirmations required on top of the cutting block.
    pub confirmations: u32,
}

/// A genesis staker: stake delegated to one of the genesis validators.
#[derive(Clone, Debug, PartialEq, Eq)]
pub struct GenesisStaker {
    /// Staker address bytes.
    pub staker_address: Vec<u8>,
    /// Stake in the smallest currency unit.
    pub balance: u64,
    /// Address bytes of the validator the stake is delegated to.
    pub delegation: Vec<u8>,
}

/// The assembled genesis record of the successor chain.
#[derive(Clone, Debug, PartialEq, Eq)]
pub struct GenesisConfig {
    /// The seed message.
    pub seed_message: String,
    /// The verifiable-random-function seed, in its serialized text form.
    pub vrf_seed: String,
    /// Hash of the legacy chain's genesis block.
    pub parent_election_hash: Vec<u8>,
    /// Hash of the cutting block.
    pub parent_hash: Vec<u8>,
    /// The history commitment root, absent in partial output modes.
    pub history_root: Option<Vec<u8>>,
    /// Height of the cutting block.
    pub block_number: u32,
    /// The genesis timestamp.
    pub timestamp: u64,
    /// The genesis validators.
    pub validators: Vec<GenesisValidator>,
    /// The genesis stakers, absent in partial output modes.
    pub stakers: Option<Vec<GenesisStaker>>,
    /// Basic genesis accounts.
    pub basic_accounts: Vec<crate::accounts::GenesisAccount>,
    /// Genesis vesting contracts.
    pub vesting_accounts: Vec<crate::accounts::GenesisVestingContract>,
    /// Genesis time-locked contracts.
    pub htlc_accounts: Vec<crate::accounts::GenesisHTLC>,
}

/// The seed message written into every genesis record.
pub open spec fn seed_message_str() -> Seq<char> {
    "Albatross TestNet"@
}

/// The checks the assembler makes, and the genesis timestamp it
/// computes when they pass: the cutting block must be the one the
/// window names; the timestamp (the cutting block's timestamp plus one
/// average block time per required confirmation) must fit; both parent
/// hashes must be well-formed 32-byte hex digests; a supplied history
/// root must be 32 bytes.
pub open spec fn spec_genesis_checks(
    cutting_block: PoWBlock,
    pow_genesis: PoWBlock,
    window: PoWRegistrationWindow,
    block_time_ms: u64,
    history_root: Option<Vec<u8>>,
) -> Result<u64, Error> {
    if cutting_block.hash@ != window.final_block@ {
        Err(Error::UnknownBlock)
    } else if window.confirmations * block_time_ms + cutting_block.timestamp > u64::MAX {
        Err(Error::InvalidValue)
    } else if !(hex_ok(pow_genesis.hash@) && hex_bytes(pow_genesis.hash@).len() == 32) {
        Err(Error::Hex)
    } else if !(hex_ok(cutting_block.hash@) && hex_bytes(cutting_block.hash@).len() == 32) {
        Err(Error::Hex)
    } else if (match history_root {
        Option::Some(h) => h@.len() != 32,
        Option::None => false,
    }) {
        Err(Error::InvalidValue)
    } else {
        Ok((window.confirmations * block_time_ms + cutting_block.timestamp) as u64)
    }
}

/// Assemble the genesis record. The inputs are merged unchanged; any
/// missing or malformed input is a hard error, never defaulted.
pub fn get_pos_genesis(
    cutting_block: &PoWBlock,
    pow_genesis: &PoWBlock,
    window: &PoWRegistrationWindow,
    vrf_seed: String,
    history_root: Option<Vec<u8>>,
    accounts: GenesisAccounts,
    validators: Vec<GenesisValidator>,
    stakers: Option<Vec<GenesisStaker>>,
    block_time_ms: u64,
) -> (r: Result<GenesisConfig, Error>)
    ensures
        ({
            let checks = spec_genesis_checks(*cutting_block, *pow_genesis, *window, block_time_ms, history_root);
            match r {
                Ok(g) => {
                    &&& checks == Ok::<u64, Error>(g.timestamp)
                    &&& g.seed_message@ == seed_message_str()
                    &&& g.vrf_seed@ == vrf_seed@
                    &&& g.parent_election_hash@ == hex_bytes(pow_genesis.hash@)
                    &&& g.parent_hash@ == hex_bytes(cutting_block.hash@)
                    &&& opt_bytes_view(g.history_root) == opt_bytes_view(history_root)
                    &&& g.block_number == cutting_block.number
                    &&& g.validators == validators
                    &&& g.stakers == stakers
                    &&& g.basic_accounts == accounts.basic_accounts
                    &&& g.vesting_accounts == accounts.vesting_accounts
                    &&& g.htlc_accounts == accounts.htlc_accounts
                },
                Err(e) => checks == Err::<u64, Error>(e),
            }
        }),
{
    if !(cutting_block.hash == window.final_block) {
        return Err(Error::UnknownBlock);
    }
    let timestamp = match (window.confirmations as u64).checked_mul(block_time_ms) {
        Some(offset) => match offset.checked_add(cutting_block.timestamp as u64) {
            Some(t) => t,
            None => {
                return Err(Error::InvalidValue);
            },
        },
        None => {
            return Err(Error::InvalidValue);
        },
    };
    let parent_election_hash = match hex_decode(pow_genesis.hash.as_str()) {
        Some(b) => {
            if b.len() != 32 {
                return Err(Error::Hex);
            }
            b
        },
        None => {
            return Err(Error::Hex);
        },
    };
    let parent_hash = match hex_decode(cutting_block.hash.as_str()) {
        Some(b) => {
            if b.len() != 32 {
                return Err(Error::Hex);
            }
            b
        },
        None => {
            return Err(Error::Hex);
        },
    };
    match &history_root {
        Some(h) => {
            if h.len() != 32 {
                return Err(Error::InvalidValue);
            }
        },
        None => {},
    }
    Ok(
        GenesisConfig {
            seed_message: "Albatross TestNet".to_owned(),
            vrf_seed,
            parent_election_hash,
            parent_hash,
            history_root,
            block_number: cutting_block.number,
            timestamp,
            validators,
            stakers,
            basic_accounts: accounts.basic_accounts,
            vesting_accounts: accounts.vesting_accounts,
            htlc_accounts: accounts.htlc_accounts,
        },
    )
}

} // verus!
