//! Plain-value records for what the legacy chain reader returns, and the
//! error taxonomy shared by the conversion pipeline.

use vstd::prelude::*;

verus! {

/// Errors of the migration engine.
///
/// Transport failures are reported by the caller that talks to the chain;
/// the library itself only produces the decode- and invariant-level errors.
#[derive(Clone, Copy, Debug, PartialEq, Eq, Structural)]
pub enum Error {
    /// The chain reader returned a block other than the requested one.
    UnknownBlock,
    /// A textual address could not be parsed.
    Address,
    /// A balance does not fit the exactly-representable coin range.
    Coin,
    /// A hex-encoded field could not be decoded.
    Hex,
    /// A field carries a value the legacy protocol does not allow,
    /// or a re-based quantity overflows its machine representation.
    InvalidValue,
}

/// A block of the legacy chain, as the chain reader reports it.
#[derive(Clone, Debug)]
pub struct PoWBlock {
    /// Block height.
    pub number: u32,
    /// Block hash, hex encoded.
    pub hash: String,
    /// Block timestamp.
    pub timestamp: u32,
}

/// A transaction of the legacy chain, as the chain reader reports it.
#[derive(Clone, Debug)]
pub struct PoWTransaction {
    /// Sender address in user-friendly text form.
    pub from_address: String,
    /// Sender account type tag.
    pub from_type: u8,
    /// Recipient address in user-friendly text form.
    pub to_address: String,
    /// Recipient account type tag.
    pub to_type: u8,
    /// Transferred value in the smallest currency unit.
    pub value: u64,
    /// Fee in the smallest currency unit.
    pub fee: u64,
    /// Height of the block that contains the transaction.
    pub block_number: u32,
    /// Attached data, hex encoded, if any.
    pub data: Option<String>,
    /// Attached proof, hex encoded, if any.
    pub proof: Option<String>,
    /// Height from which the transaction was valid.
    pub validity_start_height: u32,
    /// Network identifier tag.
    pub network_id: u8,
    /// Transaction flag bits.
    pub flags: u8,
}

/// A transaction to be submitted to the legacy chain.
#[derive(Clone, Debug)]
pub struct OutgoingTransaction {
    /// Sender address in user-friendly text form.
    pub from: String,
    /// Recipient address in user-friendly text form.
    pub to: String,
    /// Transferred value in the smallest currency unit.
    pub value: u64,
    /// Fee in the smallest currency unit.
    pub fee: u64,
}

} // verus!
