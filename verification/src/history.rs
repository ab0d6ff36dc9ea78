//! Conversion of legacy transactions into the successor chain's
//! transaction records, for replay into the history commitment store.
//!
//! The history store itself is an external collaborator; the library
//! only decides, per transaction, what record the replay feeds it, and
//! fails loudly on any malformed field.

use vstd::prelude::*;

use crate::coin::valid_coin;
use crate::codec::{hex_bytes, hex_decode, hex_ok};
use crate::keys::{friendly_address, parse_friendly_address};
use crate::types::{Error, PoWTransaction};

verus! {

/// The account kinds of the legacy chain.
#[derive(Clone, Copy, Debug, PartialEq, Eq, Structural)]
pub enum AccountType {
    /// A basic balance-holding account.
    Basic,
    /// A vesting contract.
    Vesting,
    /// A hashed time-locked contract.
    HTLC,
}

/// The network a transaction belongs to.
#[derive(Clone, Copy, Debug, PartialEq, Eq, Structural)]
pub enum NetworkId {
    /// The test network.
    Test,
    /// The main network.
    Main,
}

/// A transaction record of the successor chain.
#[derive(Clone, Debug, PartialEq, Eq)]
pub struct PoSTransaction {
    /// Sender address bytes.
    pub sender: Vec<u8>,
    /// Sender account kind.
    pub sender_type: AccountType,
    /// Recipient address bytes.
    pub recipient: Vec<u8>,
    /// Recipient account kind.
    pub recipient_type: AccountType,
    /// Transferred value in the smallest currency unit.
    pub value: u64,
    /// Fee in the smallest currency unit.
    pub fee: u64,
    /// Attached data bytes.
    pub data: Vec<u8>,
    /// Height from which the transaction was valid.
    pub validity_start_height: u32,
    /// Network identifier.
    pub network_id: NetworkId,
    /// Transaction flag bits.
    pub flags: u8,
    /// Proof bytes.
    pub proof: Vec<u8>,
}

/// Mathematical model of a transaction record.
#[verifier::ext_equal]
pub struct PoSTransactionV {
    /// Sender address bytes.
    pub sender: Seq<u8>,
    /// Sender account kind.
    pub sender_type: AccountType,
    /// Recipient address bytes.
    pub recipient: Seq<u8>,
    /// Recipient account kind.
    pub recipient_type: AccountType,
    /// Transferred value.
    pub value: u64,
    /// Fee.
    pub fee: u64,
    /// Attached data bytes.
    pub data: Seq<u8>,
    /// Height from which the transaction was valid.
    pub validity_start_height: u32,
    /// Network identifier.
    pub network_id: NetworkId,
    /// Transaction flag bits.
    pub flags: u8,
    /// Proof bytes.
    pub proof: Seq<u8>,
}

impl View for PoSTransaction {
    type V = PoSTransactionV;

    open spec fn view(&self) -> PoSTransactionV {
        PoSTransactionV {
            sender: self.sender@,
            sender_type: self.sender_type,
            recipient: self.recipient@,
            recipient_type: self.recipient_type,
            value: self.value,
            fee: self.fee,
            data: self.data@,
            validity_start_height: self.validity_start_height,
            network_id: self.network_id,
            flags: self.flags,
            proof: self.proof@,
        }
    }
}

/// The account kind a legacy type tag denotes: 0, 1 and 2; any other
/// tag is an error.
pub open spec fn spec_account_type(tag: u8) -> Result<AccountType, Error> {
    if tag == 0 {
        Ok(AccountType::Basic)
    } else if tag == 1 {
        Ok(AccountType::Vesting)
    } else if tag == 2 {
        Ok(AccountType::HTLC)
    } else {
        Err(Error::InvalidValue)
    }
}

/// Map a legacy account type tag onto the account kind.
pub fn get_account_type(pow_account_type: &u8) -> (r: Result<AccountType, Error>)
    ensures
        r == spec_account_type(*pow_account_type),
{
    if *pow_account_type == 0 {
        Ok(AccountType::Basic)
    } else if *pow_account_type == 1 {
        Ok(AccountType::Vesting)
    } else if *pow_account_type == 2 {
        Ok(AccountType::HTLC)
    } else {
        Err(Error::InvalidValue)
    }
}

/// The network a legacy network tag denotes: 1 is the test network and
/// 42 the main network; any other tag is an error.
pub open spec fn spec_network_id(tag: u8) -> Result<NetworkId, Error> {
    if tag == 1 {
        Ok(NetworkId::Test)
    } else if tag == 42 {
        Ok(NetworkId::Main)
    } else {
        Err(Error::InvalidValue)
    }
}

/// Map a legacy network identifier tag onto the network.
pub fn from_pow_network_id(pow_network_id: u8) -> (r: Result<NetworkId, Error>)
    ensures
        r == spec_network_id(pow_network_id),
{
    if pow_network_id == 1 {
        Ok(NetworkId::Test)
    } else if pow_network_id == 42 {
        Ok(NetworkId::Main)
    } else {
        Err(Error::InvalidValue)
    }
}

/// The highest flag bits a transaction may carry: contract creation
/// and signaling.
pub open spec fn spec_flags_valid(flags: u8) -> bool {
    flags <= 3
}

/// What converting a legacy transaction yields, or the first error, in
/// the order the fields are examined: sender, sender type, recipient,
/// recipient type, value, fee, data, network, proof, flags.
pub open spec fn spec_from_pow_transaction(t: PoWTransaction) -> Result<PoSTransactionV, Error> {
    if friendly_address(t.from_address@) is None {
        Err(Error::Address)
    } else if spec_account_type(t.from_type) is Err {
        Err(Error::InvalidValue)
    } else if friendly_address(t.to_address@) is None {
        Err(Error::Address)
    } else if spec_account_type(t.to_type) is Err {
        Err(Error::InvalidValue)
    } else if !valid_coin(t.value) {
        Err(Error::Coin)
    } else if !valid_coin(t.fee) {
        Err(Error::Coin)
    } else if (match t.data {
        Option::Some(h) => !hex_ok(h@),
        Option::None => false,
    }) {
        Err(Error::Hex)
    } else if spec_network_id(t.network_id) is Err {
        Err(Error::InvalidValue)
    } else if ({
        let pr = t.proof;
        match pr {
            Option::Some(h) => !hex_ok(h@),
            Option::None => false,
        }
    }) {
        Err(Error::Hex)
    } else if !spec_flags_valid(t.flags) {
        Err(Error::InvalidValue)
    } else {
        Ok(
            PoSTransactionV {
                sender: friendly_address(t.from_address@).unwrap(),
                sender_type: spec_account_type(t.from_type).unwrap(),
                recipient: friendly_address(t.to_address@).unwrap(),
                recipient_type: spec_account_type(t.to_type).unwrap(),
                value: t.value,
                fee: t.fee,
                data: match t.data {
                    Option::Some(h) => hex_bytes(h@),
                    Option::None => Seq::empty(),
                },
                validity_start_height: t.validity_start_height,
                network_id: spec_network_id(t.network_id).unwrap(),
                flags: t.flags,
                proof: ({
                    let pr = t.proof;
                    match pr {
                        Option::Some(h) => hex_bytes(h@),
                        Option::None => Seq::empty(),
                    }
                }),
            },
        )
    }
}

/// Convert a legacy transaction into a transaction record of the
/// successor chain, failing loudly on any malformed field.
pub fn from_pow_transaction(pow_transaction: &PoWTransaction) -> (r: Result<PoSTransaction, Error>)
    ensures
        ({
            let s = spec_from_pow_transaction(*pow_transaction);
            match r {
                Ok(t) => s == Ok::<PoSTransactionV, Error>(t@),
                Err(e) => s == Err::<PoSTransactionV, Error>(e),
            }
        }),
{
    let sender = match parse_friendly_address(pow_transaction.from_address.as_str()) {
        Some(b) => b,
        None => {
            return Err(Error::Address);
        },
    };
    let sender_type = get_account_type(&pow_transaction.from_type)?;
    let recipient = match parse_friendly_address(pow_transaction.to_address.as_str()) {
        Some(b) => b,
        None => {
            return Err(Error::Address);
        },
    };
    let recipient_type = get_account_type(&pow_transaction.to_type)?;
    let value = crate::coin::try_coin_from_u64(pow_transaction.value)?;
    let fee = crate::coin::try_coin_from_u64(pow_transaction.fee)?;
    let data = match &pow_transaction.data {
        Some(h) => match hex_decode(h.as_str()) {
            Some(b) => b,
            None => {
                return Err(Error::Hex);
            },
        },
        None => Vec::new(),
    };
    let network_id = from_pow_network_id(pow_transaction.network_id)?;
    let pr = &pow_transaction.proof;
    let proof_bytes = match pr {
        Some(h) => match hex_decode(h.as_str()) {
            Some(b) => b,
            None => {
                return Err(Error::Hex);
            },
        },
        None => Vec::new(),
    };
    if !(pow_transaction.flags <= 3) {
        return Err(Error::InvalidValue);
    }
    Ok(
        PoSTransaction {
            sender,
            sender_type,
            recipient,
            recipient_type,
            value,
            fee,
            data,
            validity_start_height: pow_transaction.validity_start_height,
            network_id,
            flags: pow_transaction.flags,
            proof: proof_bytes,
        },
    )
}

} // verus!
