//! Coin values: balances in the smallest currency unit.
//!
//! The legacy chain's numeric interface represents amounts as integers
//! that must stay exactly representable in an IEEE double, so a valid
//! coin value never exceeds `2^53 - 1`. Conversions fail loudly instead
//! of wrapping.

use vstd::prelude::*;

use crate::types::Error;

verus! {

/// The largest valid coin value: `2^53 - 1`, the bound for exact
/// representation in the legacy chain's numeric interface.
pub open spec fn coin_max() -> int {
    0x1f_ffff_ffff_ffff
}

/// Whether a raw balance is a valid coin value.
pub open spec fn valid_coin(value: u64) -> bool {
    value <= coin_max()
}

/// Checked conversion of a raw legacy balance into a coin value.
pub fn try_coin_from_u64(value: u64) -> (r: Result<u64, Error>)
    ensures
        valid_coin(value) ==> r == Ok::<u64, Error>(value),
        !valid_coin(value) ==> r == Err::<u64, Error>(Error::Coin),
{
    if value <= 0x1f_ffff_ffff_ffff {
        Ok(value)
    } else {
        Err(Error::Coin)
    }
}

} // verus!
