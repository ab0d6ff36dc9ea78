//! Conversion of the legacy account tree into genesis account records.
//!
//! Every legacy account maps one-to-one onto a genesis record; block-height
//! based times are re-based onto the successor chain's clock. The whole
//! conversion is strict: the first malformed record aborts it, since a
//! partially converted genesis state is worse than none.

use vstd::prelude::*;

use crate::coin::{try_coin_from_u64, valid_coin};
use crate::codec::{hex_bytes, hex_decode, hex_ok};
use crate::keys::{friendly_address, parse_friendly_address};
use crate::types::{Error, PoWBlock};

verus! {

/// A basic legacy account, as the chain reader reports it.
#[derive(Clone, Debug)]
pub struct PoWBasicAccount {
    /// Account address in user-friendly text form.
    pub address: String,
    /// Balance in the smallest currency unit.
    pub balance: u64,
}

/// A legacy vesting contract, as the chain reader reports it.
#[derive(Clone, Debug)]
pub struct PoWVestingAccount {
    /// Contract address in user-friendly text form.
    pub address: String,
    /// Owner address in user-friendly text form.
    pub owner_address: String,
    /// Balance in the smallest currency unit.
    pub balance: u64,
    /// Block height at which vesting starts.
    pub vesting_start: u32,
    /// Length of one vesting step, in blocks.
    pub vesting_step_blocks: u32,
    /// Amount released per vesting step.
    pub vesting_step_amount: u64,
    /// Total vested amount.
    pub vesting_total_amount: u64,
}

/// A legacy hashed time-locked contract, as the chain reader reports it.
#[derive(Clone, Debug)]
pub struct PoWHTLCAccount {
    /// Contract address in user-friendly text form.
    pub address: String,
    /// Sender address in user-friendly text form.
    pub sender_address: String,
    /// Recipient address in user-friendly text form.
    pub recipient_address: String,
    /// Balance in the smallest currency unit.
    pub balance: u64,
    /// Root of the hash chain, hex encoded.
    pub hash_root: String,
    /// Hash algorithm tag.
    pub hash_algorithm: u8,
    /// Number of hash reveals required to claim the full amount.
    pub hash_count: u8,
    /// Block height at which the contract times out.
    pub timeout: u32,
    /// Total locked amount.
    pub total_amount: u64,
}

/// One legacy account of any kind.
#[derive(Clone, Debug)]
pub enum PoWAccount {
    /// A basic balance-holding account.
    Basic(PoWBasicAccount),
    /// A vesting contract.
    Vesting(PoWVestingAccount),
    /// A hashed time-locked contract.
    HTLC(PoWHTLCAccount),
}

/// One chunk of the legacy account tree enumeration.
#[derive(Clone, Debug)]
pub struct AccountsTreeChunk {
    /// The accounts of this chunk.
    pub nodes: Vec<PoWAccount>,
    /// The marker at which the next chunk must be requested.
    pub tail: String,
}

/// A genesis basic account.
#[derive(Clone, Debug, PartialEq, Eq)]
pub struct GenesisAccount {
    /// Account address bytes.
    pub address: Vec<u8>,
    /// Balance in the smallest currency unit.
    pub balance: u64,
}

/// A genesis vesting contract. All times are absolute milliseconds on
/// the successor chain's clock.
#[derive(Clone, Debug, PartialEq, Eq)]
pub struct GenesisVestingContract {
    /// Contract address bytes.
    pub address: Vec<u8>,
    /// Owner address bytes.
    pub owner: Vec<u8>,
    /// Balance in the smallest currency unit.
    pub balance: u64,
    /// Absolute start time.
    pub start_time: u64,
    /// Length of one vesting step in milliseconds.
    pub time_step: u64,
    /// Amount released per vesting step.
    pub step_amount: u64,
    /// Total vested amount.
    pub total_amount: u64,
}

/// The hash root of a time-locked contract, tagged by algorithm.
#[derive(Clone, Debug, PartialEq, Eq)]
pub enum AnyHash {
    /// A Blake2b-256 root.
    Blake2b(Vec<u8>),
    /// A SHA-256 root.
    Sha256(Vec<u8>),
    /// A SHA-512 root.
    Sha512(Vec<u8>),
}

/// A genesis hashed time-locked contract.
#[derive(Clone, Debug, PartialEq, Eq)]
pub struct GenesisHTLC {
    /// Contract address bytes.
    pub address: Vec<u8>,
    /// Recipient address bytes.
    pub recipient: Vec<u8>,
    /// Sender address bytes.
    pub sender: Vec<u8>,
    /// Balance in the smallest currency unit.
    pub balance: u64,
    /// Root of the hash chain.
    pub hash_root: AnyHash,
    /// Number of hash reveals required to claim the full amount.
    pub hash_count: u8,
    /// Absolute timeout.
    pub timeout: u64,
    /// Total locked amount.
    pub total_amount: u64,
}

/// The genesis accounts, partitioned by kind.
#[derive(Clone, Debug, PartialEq, Eq)]
pub struct GenesisAccounts {
    /// Basic accounts.
    pub basic_accounts: Vec<GenesisAccount>,
    /// Vesting contracts.
    pub vesting_accounts: Vec<GenesisVestingContract>,
    /// Hashed time-locked contracts.
    pub htlc_accounts: Vec<GenesisHTLC>,
}

/// Mathematical model of a genesis basic account.
#[verifier::ext_equal]
pub struct GenesisAccountV {
    /// Account address bytes.
    pub address: Seq<u8>,
    /// Balance.
    pub balance: u64,
}

/// Mathematical model of a genesis vesting contract.
#[verifier::ext_equal]
pub struct GenesisVestingContractV {
    /// Contract address bytes.
    pub address: Seq<u8>,
    /// Owner address bytes.
    pub owner: Seq<u8>,
    /// Balance.
    pub balance: u64,
    /// Absolute start time.
    pub start_time: u64,
    /// Step length in milliseconds.
    pub time_step: u64,
    /// Amount per step.
    pub step_amount: u64,
    /// Total amount.
    pub total_amount: u64,
}

/// Mathematical model of a hash root.
#[verifier::ext_equal]
pub enum AnyHashV {
    /// A Blake2b-256 root.
    Blake2b(Seq<u8>),
    /// A SHA-256 root.
    Sha256(Seq<u8>),
    /// A SHA-512 root.
    Sha512(Seq<u8>),
}

/// Mathematical model of a genesis time-locked contract.
#[verifier::ext_equal]
pub struct GenesisHTLCV {
    /// Contract address bytes.
    pub address: Seq<u8>,
    /// Recipient address bytes.
    pub recipient: Seq<u8>,
    /// Sender address bytes.
    pub sender: Seq<u8>,
    /// Balance.
    pub balance: u64,
    /// Hash root.
    pub hash_root: AnyHashV,
    /// Required hash reveals.
    pub hash_count: u8,
    /// Absolute timeout.
    pub timeout: u64,
    /// Total amount.
    pub total_amount: u64,
}

/// Mathematical model of the partitioned genesis accounts.
#[verifier::ext_equal]
pub struct GenesisAccountsV {
    /// Basic accounts.
    pub basic: Seq<GenesisAccountV>,
    /// Vesting contracts.
    pub vesting: Seq<GenesisVestingContractV>,
    /// Time-locked contracts.
    pub htlc: Seq<GenesisHTLCV>,
}

impl View for GenesisAccount {
    type V = GenesisAccountV;

    open spec fn view(&self) -> GenesisAccountV {
        GenesisAccountV { address: self.address@, balance: self.balance }
    }
}

impl View for GenesisVestingContract {
    type V = GenesisVestingContractV;

    open spec fn view(&self) -> GenesisVestingContractV {
        GenesisVestingContractV {
            address: self.address@,
            owner: self.owner@,
            balance: self.balance,
            start_time: self.start_time,
            time_step: self.time_step,
            step_amount: self.step_amount,
            total_amount: self.total_amount,
        }
    }
}

impl View for AnyHash {
    type V = AnyHashV;

    open spec fn view(&self) -> AnyHashV {
        match self {
            AnyHash::Blake2b(b) => AnyHashV::Blake2b(b@),
            AnyHash::Sha256(b) => AnyHashV::Sha256(b@),
            AnyHash::Sha512(b) => AnyHashV::Sha512(b@),
        }
    }
}

impl View for GenesisHTLC {
    type V = GenesisHTLCV;

    open spec fn view(&self) -> GenesisHTLCV {
        GenesisHTLCV {
            address: self.address@,
            recipient: self.recipient@,
            sender: self.sender@,
            balance: self.balance,
            hash_root: self.hash_root@,
            hash_count: self.hash_count,
            timeout: self.timeout,
            total_amount: self.total_amount,
        }
    }
}

impl View for GenesisAccounts {
    type V = GenesisAccountsV;

    open spec fn view(&self) -> GenesisAccountsV {
        GenesisAccountsV {
            basic: self.basic_accounts@.map_values(|a: GenesisAccount| a@),
            vesting: self.vesting_accounts@.map_values(|a: GenesisVestingContract| a@),
            htlc: self.htlc_accounts@.map_values(|a: GenesisHTLC| a@),
        }
    }
}

/// A legacy block height re-based onto the successor chain's clock: a
/// height at or before the cutting block collapses to the cutting
/// block's own timestamp; a later height lies its block distance times
/// the average block time after the genesis timestamp.
pub open spec fn spec_rebase_time(
    legacy_height: u32,
    cutting_number: u32,
    cutting_ts: u32,
    block_time_ms: u64,
    genesis_ts: u64,
) -> int {
    if legacy_height <= cutting_number {
        cutting_ts as int
    } else {
        (legacy_height - cutting_number) * block_time_ms + genesis_ts
    }
}

/// Re-base a legacy block height onto the successor chain's clock.
/// Fails loudly when the result does not fit a machine timestamp.
pub fn rebase_time(legacy_height: u32, cutting_block: &PoWBlock, block_time_ms: u64, genesis_ts: u64) -> (r: Result<
    u64,
    Error,
>)
    ensures
        ({
            let t = spec_rebase_time(
                legacy_height,
                cutting_block.number,
                cutting_block.timestamp,
                block_time_ms,
                genesis_ts,
            );
            if t <= u64::MAX {
                r == Ok::<u64, Error>(t as u64)
            } else {
                r == Err::<u64, Error>(Error::InvalidValue)
            }
        }),
{
    if legacy_height <= cutting_block.number {
        Ok(cutting_block.timestamp as u64)
    } else {
        let diff = (legacy_height - cutting_block.number) as u64;
        match diff.checked_mul(block_time_ms) {
            Some(offset) => match offset.checked_add(genesis_ts) {
                Some(t) => Ok(t),
                None => Err(Error::InvalidValue),
            },
            None => Err(Error::InvalidValue),
        }
    }
}

/// What converting a basic account yields: its address bytes and its
/// balance, or the first error.
pub open spec fn spec_basic_account(a: PoWBasicAccount) -> Result<GenesisAccountV, Error> {
    if friendly_address(a.address@) is None {
        Err(Error::Address)
    } else if !valid_coin(a.balance) {
        Err(Error::Coin)
    } else {
        Ok(GenesisAccountV { address: friendly_address(a.address@).unwrap(), balance: a.balance })
    }
}

/// Convert a basic legacy account into a genesis basic account.
pub fn pos_basic_account_from_account(pow_account: &PoWBasicAccount) -> (r: Result<GenesisAccount, Error>)
    ensures
        ({
            let s = spec_basic_account(*pow_account);
            match r {
                Ok(g) => s == Ok::<GenesisAccountV, Error>(g@),
                Err(e) => s == Err::<GenesisAccountV, Error>(e),
            }
        }),
{
    let address = match parse_friendly_address(pow_account.address.as_str()) {
        Some(b) => b,
        None => {
            return Err(Error::Address);
        },
    };
    let balance = try_coin_from_u64(pow_account.balance)?;
    Ok(GenesisAccount { address, balance })
}

/// What converting a vesting contract yields, with both times re-based,
/// or the first error. Errors are reported in the order the fields are
/// examined: owner, address, balance, start time, time step, step
/// amount, total amount.
pub open spec fn spec_vesting_account(
    a: PoWVestingAccount,
    cutting_number: u32,
    cutting_ts: u32,
    block_time_ms: u64,
    genesis_ts: u64,
) -> Result<GenesisVestingContractV, Error> {
    let start = spec_rebase_time(a.vesting_start, cutting_number, cutting_ts, block_time_ms, genesis_ts);
    if friendly_address(a.owner_address@) is None {
        Err(Error::Address)
    } else if friendly_address(a.address@) is None {
        Err(Error::Address)
    } else if !valid_coin(a.balance) {
        Err(Error::Coin)
    } else if start > u64::MAX {
        Err(Error::InvalidValue)
    } else if a.vesting_step_blocks * block_time_ms > u64::MAX {
        Err(Error::InvalidValue)
    } else if !valid_coin(a.vesting_step_amount) {
        Err(Error::Coin)
    } else if !valid_coin(a.vesting_total_amount) {
        Err(Error::Coin)
    } else {
        Ok(
            GenesisVestingContractV {
                address: friendly_address(a.address@).unwrap(),
                owner: friendly_address(a.owner_address@).unwrap(),
                balance: a.balance,
                start_time: start as u64,
                time_step: (a.vesting_step_blocks * block_time_ms) as u64,
                step_amount: a.vesting_step_amount,
                total_amount: a.vesting_total_amount,
            },
        )
    }
}

/// Convert a legacy vesting contract into a genesis vesting contract,
/// re-basing its start time and step length onto the successor chain's
/// clock.
pub fn pos_vesting_account_from_account(
    pow_account: &PoWVestingAccount,
    cutting_block: &PoWBlock,
    block_time_ms: u64,
    pos_genesis_ts: u64,
) -> (r: Result<GenesisVestingContract, Error>)
    ensures
        ({
            let s = spec_vesting_account(
                *pow_account,
                cutting_block.number,
                cutting_block.timestamp,
                block_time_ms,
                pos_genesis_ts,
            );
            match r {
                Ok(g) => s == Ok::<GenesisVestingContractV, Error>(g@),
                Err(e) => s == Err::<GenesisVestingContractV, Error>(e),
            }
        }),
{
    let owner = match parse_friendly_address(pow_account.owner_address.as_str()) {
        Some(b) => b,
        None => {
            return Err(Error::Address);
        },
    };
    let address = match parse_friendly_address(pow_account.address.as_str()) {
        Some(b) => b,
        None => {
            return Err(Error::Address);
        },
    };
    let balance = try_coin_from_u64(pow_account.balance)?;
    let start_time = rebase_time(pow_account.vesting_start, cutting_block, block_time_ms, pos_genesis_ts)?;
    let time_step = match (pow_account.vesting_step_blocks as u64).checked_mul(block_time_ms) {
        Some(t) => t,
        None => {
            return Err(Error::InvalidValue);
        },
    };
    let step_amount = try_coin_from_u64(pow_account.vesting_step_amount)?;
    let total_amount = try_coin_from_u64(pow_account.vesting_total_amount)?;
    Ok(
        GenesisVestingContract {
            address,
            owner,
            balance,
            start_time,
            time_step,
            step_amount,
            total_amount,
        },
    )
}

/// What a hash-root field decodes to under an algorithm tag: tags 1, 3
/// and 4 select Blake2b-256, SHA-256 and SHA-512 with their exact digest
/// lengths; any other tag is a hard error.
pub open spec fn spec_anyhash(hash_root: Seq<char>, algorithm: u8) -> Result<AnyHashV, Error> {
    if algorithm == 1 {
        if hex_ok(hash_root) && hex_bytes(hash_root).len() == 32 {
            Ok(AnyHashV::Blake2b(hex_bytes(hash_root)))
        } else {
            Err(Error::Hex)
        }
    } else if algorithm == 3 {
        if hex_ok(hash_root) && hex_bytes(hash_root).len() == 32 {
            Ok(AnyHashV::Sha256(hex_bytes(hash_root)))
        } else {
            Err(Error::Hex)
        }
    } else if algorithm == 4 {
        if hex_ok(hash_root) && hex_bytes(hash_root).len() == 64 {
            Ok(AnyHashV::Sha512(hex_bytes(hash_root)))
        } else {
            Err(Error::Hex)
        }
    } else {
        Err(Error::InvalidValue)
    }
}

/// Decode the hash root of a time-locked contract from its hex text and
/// algorithm tag.
pub fn pos_anyhash_from_hash_root(hash_root: &str, algorithm: u8) -> (r: Result<AnyHash, Error>)
    ensures
        ({
            let s = spec_anyhash(hash_root@, algorithm);
            match r {
                Ok(h) => s == Ok::<AnyHashV, Error>(h@),
                Err(e) => s == Err::<AnyHashV, Error>(e),
            }
        }),
{
    if algorithm == 1 || algorithm == 3 {
        match hex_decode(hash_root) {
            Some(b) => {
                if b.len() == 32 {
                    if algorithm == 1 {
                        Ok(AnyHash::Blake2b(b))
                    } else {
                        Ok(AnyHash::Sha256(b))
                    }
                } else {
                    Err(Error::Hex)
                }
            },
            None => Err(Error::Hex),
        }
    } else if algorithm == 4 {
        match hex_decode(hash_root) {
            Some(b) => {
                if b.len() == 64 {
                    Ok(AnyHash::Sha512(b))
                } else {
                    Err(Error::Hex)
                }
            },
            None => Err(Error::Hex),
        }
    } else {
        Err(Error::InvalidValue)
    }
}

/// What converting a time-locked contract yields, with its timeout
/// re-based, or the first error. Errors are reported in the order the
/// fields are examined: address, recipient, sender, balance, timeout,
/// total amount, hash root.
pub open spec fn spec_htlc_account(
    a: PoWHTLCAccount,
    cutting_number: u32,
    cutting_ts: u32,
    block_time_ms: u64,
    genesis_ts: u64,
) -> Result<GenesisHTLCV, Error> {
    let timeout = spec_rebase_time(a.timeout, cutting_number, cutting_ts, block_time_ms, genesis_ts);
    if friendly_address(a.address@) is None {
        Err(Error::Address)
    } else if friendly_address(a.recipient_address@) is None {
        Err(Error::Address)
    } else if friendly_address(a.sender_address@) is None {
        Err(Error::Address)
    } else if !valid_coin(a.balance) {
        Err(Error::Coin)
    } else if timeout > u64::MAX {
        Err(Error::InvalidValue)
    } else if !valid_coin(a.total_amount) {
        Err(Error::Coin)
    } else {
        match spec_anyhash(a.hash_root@, a.hash_algorithm) {
            Err(e) => Err(e),
            Ok(h) => Ok(
                GenesisHTLCV {
                    address: friendly_address(a.address@).unwrap(),
                    recipient: friendly_address(a.recipient_address@).unwrap(),
                    sender: friendly_address(a.sender_address@).unwrap(),
                    balance: a.balance,
                    hash_root: h,
                    hash_count: a.hash_count,
                    timeout: timeout as u64,
                    total_amount: a.total_amount,
                },
            ),
        }
    }
}

/// Convert a legacy time-locked contract into a genesis contract,
/// re-basing its timeout onto the successor chain's clock.
pub fn pos_htlc_account_from_account(
    pow_account: &PoWHTLCAccount,
    cutting_block: &PoWBlock,
    block_time_ms: u64,
    pos_genesis_ts: u64,
) -> (r: Result<GenesisHTLC, Error>)
    ensures
        ({
            let s = spec_htlc_account(
                *pow_account,
                cutting_block.number,
                cutting_block.timestamp,
                block_time_ms,
                pos_genesis_ts,
            );
            match r {
                Ok(g) => s == Ok::<GenesisHTLCV, Error>(g@),
                Err(e) => s == Err::<GenesisHTLCV, Error>(e),
            }
        }),
{
    let address = match parse_friendly_address(pow_account.address.as_str()) {
        Some(b) => b,
        None => {
            return Err(Error::Address);
        },
    };
    let recipient = match parse_friendly_address(pow_account.recipient_address.as_str()) {
        Some(b) => b,
        None => {
            return Err(Error::Address);
        },
    };
    let sender = match parse_friendly_address(pow_account.sender_address.as_str()) {
        Some(b) => b,
        None => {
            return Err(Error::Address);
        },
    };
    let balance = try_coin_from_u64(pow_account.balance)?;
    let timeout = rebase_time(pow_account.timeout, cutting_block, block_time_ms, pos_genesis_ts)?;
    let total_amount = try_coin_from_u64(pow_account.total_amount)?;
    let hash_root = pos_anyhash_from_hash_root(pow_account.hash_root.as_str(), pow_account.hash_algorithm)?;
    Ok(
        GenesisHTLC {
            address,
            recipient,
            sender,
            balance,
            hash_root,
            hash_count: pow_account.hash_count,
            timeout,
            total_amount,
        },
    )
}

/// What one converted account adds to the partitioned accounts, or the
/// error that aborts the conversion.
pub open spec fn spec_push_node(
    acc: GenesisAccountsV,
    n: PoWAccount,
    cutting_number: u32,
    cutting_ts: u32,
    block_time_ms: u64,
    genesis_ts: u64,
) -> Result<GenesisAccountsV, Error> {
    match n {
        PoWAccount::Basic(a) => match spec_basic_account(a) {
            Ok(g) => Ok(GenesisAccountsV { basic: acc.basic.push(g), ..acc }),
            Err(e) => Err(e),
        },
        PoWAccount::Vesting(a) => match spec_vesting_account(a, cutting_number, cutting_ts, block_time_ms, genesis_ts) {
            Ok(g) => Ok(GenesisAccountsV { vesting: acc.vesting.push(g), ..acc }),
            Err(e) => Err(e),
        },
        PoWAccount::HTLC(a) => match spec_htlc_account(a, cutting_number, cutting_ts, block_time_ms, genesis_ts) {
            Ok(g) => Ok(GenesisAccountsV { htlc: acc.htlc.push(g), ..acc }),
            Err(e) => Err(e),
        },
    }
}

/// The accounts of one chunk converted in order and appended to `acc`,
/// or the first error.
pub open spec fn spec_convert_nodes(
    acc: GenesisAccountsV,
    nodes: Seq<PoWAccount>,
    cutting_number: u32,
    cutting_ts: u32,
    block_time_ms: u64,
    genesis_ts: u64,
) -> Result<GenesisAccountsV, Error>
    decreases nodes.len(),
{
    if nodes.len() == 0 {
        Ok(acc)
    } else {
        match spec_convert_nodes(acc, nodes.drop_last(), cutting_number, cutting_ts, block_time_ms, genesis_ts) {
            Err(e) => Err(e),
            Ok(st) => spec_push_node(st, nodes.last(), cutting_number, cutting_ts, block_time_ms, genesis_ts),
        }
    }
}

/// State of the chunked account-tree scan: whether it has stopped, the
/// marker the next chunk was requested at, and the accounts so far or
/// the error that aborted the conversion.
#[verifier::ext_equal]
pub struct ScanState {
    /// Whether the enumeration has terminated.
    pub done: bool,
    /// The marker of the last processed chunk.
    pub prefix: Seq<char>,
    /// Accounts converted so far, or the aborting error.
    pub result: Result<GenesisAccountsV, Error>,
}

/// One step of the chunked scan: an empty chunk, or one whose end marker
/// repeats the marker it was requested at, terminates the enumeration
/// (the guard against a reader that makes no progress); otherwise the
/// chunk's accounts are converted and its end marker becomes the next
/// request marker.
pub open spec fn spec_scan_step(
    st: ScanState,
    ch: AccountsTreeChunk,
    cutting_number: u32,
    cutting_ts: u32,
    block_time_ms: u64,
    genesis_ts: u64,
) -> ScanState {
    if st.done || st.result is Err {
        st
    } else if ch.nodes@.len() == 0 || ch.tail@ == st.prefix {
        ScanState { done: true, prefix: st.prefix, result: st.result }
    } else {
        ScanState {
            done: false,
            prefix: ch.tail@,
            result: spec_convert_nodes(
                st.result.unwrap(),
                ch.nodes@,
                cutting_number,
                cutting_ts,
                block_time_ms,
                genesis_ts,
            ),
        }
    }
}

/// The chunked scan folded over a sequence of chunks, starting from the
/// empty marker and no accounts.
pub open spec fn spec_scan_chunks(
    chunks: Seq<AccountsTreeChunk>,
    cutting_number: u32,
    cutting_ts: u32,
    block_time_ms: u64,
    genesis_ts: u64,
) -> ScanState
    decreases chunks.len(),
{
    if chunks.len() == 0 {
        ScanState {
            done: false,
            prefix: Seq::empty(),
            result: Ok(
                GenesisAccountsV { basic: Seq::empty(), vesting: Seq::empty(), htlc: Seq::empty() },
            ),
        }
    } else {
        spec_scan_step(
            spec_scan_chunks(chunks.drop_last(), cutting_number, cutting_ts, block_time_ms, genesis_ts),
            chunks.last(),
            cutting_number,
            cutting_ts,
            block_time_ms,
            genesis_ts,
        )
    }
}

/// Once the scan has stopped or failed, later chunks change nothing.
pub proof fn lemma_scan_stops(
    chunks: Seq<AccountsTreeChunk>,
    i: int,
    cutting_number: u32,
    cutting_ts: u32,
    block_time_ms: u64,
    genesis_ts: u64,
)
    requires
        0 <= i <= chunks.len(),
        spec_scan_chunks(chunks.take(i), cutting_number, cutting_ts, block_time_ms, genesis_ts).done
            || spec_scan_chunks(chunks.take(i), cutting_number, cutting_ts, block_time_ms, genesis_ts).result is Err,
    ensures
        spec_scan_chunks(chunks, cutting_number, cutting_ts, block_time_ms, genesis_ts) == spec_scan_chunks(
            chunks.take(i),
            cutting_number,
            cutting_ts,
            block_time_ms,
            genesis_ts,
        ),
    decreases chunks.len() - i,
{
    if i < chunks.len() {
        assert(chunks.take(i + 1).drop_last() =~= chunks.take(i));
        assert(chunks.take(i + 1).last() == chunks[i]);
        lemma_scan_stops(chunks, i + 1, cutting_number, cutting_ts, block_time_ms, genesis_ts);
    } else {
        assert(chunks.take(i) =~= chunks);
    }
}

/// Once a chunk's conversion has failed, later accounts change nothing.
pub proof fn lemma_nodes_err(
    acc: GenesisAccountsV,
    nodes: Seq<PoWAccount>,
    j: int,
    cutting_number: u32,
    cutting_ts: u32,
    block_time_ms: u64,
    genesis_ts: u64,
)
    requires
        0 <= j <= nodes.len(),
        spec_convert_nodes(acc, nodes.take(j), cutting_number, cutting_ts, block_time_ms, genesis_ts) is Err,
    ensures
        spec_convert_nodes(acc, nodes, cutting_number, cutting_ts, block_time_ms, genesis_ts) == spec_convert_nodes(
            acc,
            nodes.take(j),
            cutting_number,
            cutting_ts,
            block_time_ms,
            genesis_ts,
        ),
    decreases nodes.len() - j,
{
    if j < nodes.len() {
        assert(nodes.take(j + 1).drop_last() =~= nodes.take(j));
        lemma_nodes_err(acc, nodes, j + 1, cutting_number, cutting_ts, block_time_ms, genesis_ts);
    } else {
        assert(nodes.take(j) =~= nodes);
    }
}

/// Whether the enumeration continues after this chunk: it stops at an
/// empty chunk or at an end marker that repeats the marker the chunk
/// was requested at.
pub fn chunk_continues(prev_prefix: &String, chunk: &AccountsTreeChunk) -> (r: bool)
    ensures
        r == !(chunk.nodes@.len() == 0 || chunk.tail@ == prev_prefix@),
{
    !(chunk.nodes.len() == 0 || chunk.tail == *prev_prefix)
}

/// Walk the account-tree chunks in the order they were fetched and
/// convert every account, stopping at an empty chunk or at an end marker
/// that repeats the marker the chunk was requested at, and aborting on
/// the first malformed record.
pub fn get_accounts(
    chunks: &Vec<AccountsTreeChunk>,
    cutting_block: &PoWBlock,
    block_time_ms: u64,
    pos_genesis_ts: u64,
) -> (r: Result<GenesisAccounts, Error>)
    ensures
        ({
            let st = spec_scan_chunks(
                chunks@,
                cutting_block.number,
                cutting_block.timestamp,
                block_time_ms,
                pos_genesis_ts,
            );
            match r {
                Ok(g) => st.result == Ok::<GenesisAccountsV, Error>(g@),
                Err(e) => st.result == Err::<GenesisAccountsV, Error>(e),
            }
        }),
{
    let ghost cn = cutting_block.number;
    let ghost cts = cutting_block.timestamp;
    let mut acc = GenesisAccounts {
        basic_accounts: Vec::new(),
        vesting_accounts: Vec::new(),
        htlc_accounts: Vec::new(),
    };
    let mut prefix: String = String::new();
    let mut i: usize = 0;
    proof {
        assert(acc@ =~= GenesisAccountsV { basic: Seq::empty(), vesting: Seq::empty(), htlc: Seq::empty() });
        assert(spec_scan_chunks(chunks@.take(0), cn, cts, block_time_ms, pos_genesis_ts) =~= ScanState {
            done: false,
            prefix: prefix@,
            result: Ok(acc@),
        }) by {
            assert(chunks@.take(0) =~= Seq::<AccountsTreeChunk>::empty());
        }
    }
    while i < chunks.len()
        invariant
            i <= chunks@.len(),
            cn == cutting_block.number,
            cts == cutting_block.timestamp,
            spec_scan_chunks(chunks@.take(i as int), cn, cts, block_time_ms, pos_genesis_ts) == (ScanState {
                done: false,
                prefix: prefix@,
                result: Ok(acc@),
            }),
        decreases chunks@.len() - i,
    {
        let ghost st_pre = spec_scan_chunks(chunks@.take(i as int), cn, cts, block_time_ms, pos_genesis_ts);
        proof {
            assert(chunks@.take(i + 1).drop_last() =~= chunks@.take(i as int));
            assert(chunks@.take(i + 1).last() == chunks@[i as int]);
        }
        let ch = &chunks[i];
        if ch.nodes.len() == 0 || prefix == ch.tail {
            proof {
                lemma_scan_stops(chunks@, i + 1, cn, cts, block_time_ms, pos_genesis_ts);
            }
            return Ok(acc);
        }
        let ghost acc0 = acc@;
        let mut j: usize = 0;
        proof {
            assert(ch.nodes@.take(0) =~= Seq::<PoWAccount>::empty());
        }
        while j < ch.nodes.len()
            invariant
                j <= ch.nodes@.len(),
                cn == cutting_block.number,
                cts == cutting_block.timestamp,
                spec_convert_nodes(acc0, ch.nodes@.take(j as int), cn, cts, block_time_ms, pos_genesis_ts)
                    == Ok::<GenesisAccountsV, Error>(acc@),
                ch == &chunks@[i as int],
                i < chunks@.len(),
                spec_scan_chunks(chunks@.take(i as int), cn, cts, block_time_ms, pos_genesis_ts) == (ScanState {
                    done: false,
                    prefix: prefix@,
                    result: Ok(acc0),
                }),
                !(ch.nodes@.len() == 0 || ch.tail@ == prefix@),
            decreases ch.nodes@.len() - j,
        {
            proof {
                assert(ch.nodes@.take(j + 1).drop_last() =~= ch.nodes@.take(j as int));
                assert(ch.nodes@.take(j + 1).last() == ch.nodes@[j as int]);
            }
            let node_result: Result<(), Error> = match &ch.nodes[j] {
                PoWAccount::Basic(a) => match pos_basic_account_from_account(a) {
                    Ok(g) => {
                        acc.basic_accounts.push(g);
                        Ok(())
                    },
                    Err(e) => Err(e),
                },
                PoWAccount::Vesting(a) => match pos_vesting_account_from_account(
                    a,
                    cutting_block,
                    block_time_ms,
                    pos_genesis_ts,
                ) {
                    Ok(g) => {
                        acc.vesting_accounts.push(g);
                        Ok(())
                    },
                    Err(e) => Err(e),
                },
                PoWAccount::HTLC(a) => match pos_htlc_account_from_account(
                    a,
                    cutting_block,
                    block_time_ms,
                    pos_genesis_ts,
                ) {
                    Ok(g) => {
                        acc.htlc_accounts.push(g);
                        Ok(())
                    },
                    Err(e) => Err(e),
                },
            };
            match node_result {
                Ok(()) => {
                    proof {
                        assert(spec_convert_nodes(
                            acc0,
                            ch.nodes@.take(j + 1),
                            cn,
                            cts,
                            block_time_ms,
                            pos_genesis_ts,
                        ) matches Ok(g) && g =~= acc@);
                    }
                },
                Err(e) => {
                    proof {
                        lemma_nodes_err(acc0, ch.nodes@, j + 1, cn, cts, block_time_ms, pos_genesis_ts);
                        assert(chunks@.take(i + 1).drop_last() =~= chunks@.take(i as int));
                        assert(chunks@.take(i + 1).last() == chunks@[i as int]);
                        assert(spec_scan_chunks(chunks@.take(i + 1), cn, cts, block_time_ms, pos_genesis_ts).result
                            == Err::<GenesisAccountsV, Error>(e));
                        lemma_scan_stops(chunks@, i + 1, cn, cts, block_time_ms, pos_genesis_ts);
                    }
                    return Err(e);
                },
            }
            j = j + 1;
        }
        proof {
            assert(ch.nodes@.take(ch.nodes@.len() as int) =~= ch.nodes@);
        }
        prefix = ch.tail.clone();
        i = i + 1;
    }
    proof {
        assert(chunks@.take(chunks@.len() as int) =~= chunks@);
    }
    Ok(acc)
}

/// Account conversion is idempotent: the conversion is a function of the
/// snapshot alone, so converting the same snapshot twice yields identical
/// genesis account lists.
pub proof fn lemma_conversion_idempotent(
    first: Seq<AccountsTreeChunk>,
    second: Seq<AccountsTreeChunk>,
    cutting_number: u32,
    cutting_ts: u32,
    block_time_ms: u64,
    genesis_ts: u64,
)
    requires
        first == second,
    ensures
        spec_scan_chunks(first, cutting_number, cutting_ts, block_time_ms, genesis_ts) == spec_scan_chunks(
            second,
            cutting_number,
            cutting_ts,
            block_time_ms,
            genesis_ts,
        ),
{
}

/// Time re-basing: a height equal to the cutting height converts to the
/// cutting block's own timestamp; a later height converts to its block
/// distance times the average block time after the genesis timestamp;
/// an earlier, already-matured height also collapses to the cutting
/// block's timestamp.
pub proof fn lemma_time_rebase(
    legacy_height: u32,
    cutting_number: u32,
    cutting_ts: u32,
    block_time_ms: u64,
    genesis_ts: u64,
)
    ensures
        legacy_height == cutting_number ==> spec_rebase_time(
            legacy_height,
            cutting_number,
            cutting_ts,
            block_time_ms,
            genesis_ts,
        ) == cutting_ts,
        legacy_height > cutting_number ==> spec_rebase_time(
            legacy_height,
            cutting_number,
            cutting_ts,
            block_time_ms,
            genesis_ts,
        ) == (legacy_height - cutting_number) * block_time_ms + genesis_ts,
        legacy_height < cutting_number ==> spec_rebase_time(
            legacy_height,
            cutting_number,
            cutting_ts,
            block_time_ms,
            genesis_ts,
        ) == cutting_ts,
{
}

} // verus!
