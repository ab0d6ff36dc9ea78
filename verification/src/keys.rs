//! Address parsing at the boundary to the key library.
//!
//! An address of the successor chain is 20 bytes. Its textual forms (the
//! user-friendly form with country code and checksum, and plain hex) are
//! parsed by the key library; the library's logic works on the bytes.

use vstd::prelude::*;

verus! {

/// Number of bytes in an address.
pub open spec fn address_len() -> int {
    20
}

/// The bytes the user-friendly address form encodes, if the text is a
/// well-formed user-friendly address.
pub uninterp spec fn friendly_address(s: Seq<char>) -> Option<Seq<u8>>;

/// The bytes an address string in any accepted form (user-friendly or
/// hex) encodes, if it parses.
pub uninterp spec fn address_from_any(s: Seq<char>) -> Option<Seq<u8>>;

/// The user-friendly form of the burn address, to which registration
/// and readiness transactions are sent.
pub open spec fn burn_address_str() -> Seq<char> {
    "NQ07 0000 0000 0000 0000 0000 0000 0000 0000"@
}

/// Relies on nimiq_keys::Address::from_user_friendly_address: it parses
/// the 36-character user-friendly form (spaces ignored) into 20 bytes.
#[verifier::external_body]
pub fn parse_friendly_address(s: &str) -> (r: Option<Vec<u8>>)
    ensures
        r is Some <==> friendly_address(s@) is Some,
        r is Some ==> friendly_address(s@) == Some(r.unwrap()@) && r.unwrap()@.len() == address_len(),
{
    nimiq_keys::Address::from_user_friendly_address(s)
        .ok()
        .map(|a| a.as_bytes().to_vec())
}

/// Relies on nimiq_keys::Address::from_any_str: it tries the
/// user-friendly form first and plain hex second, so a string in
/// user-friendly form parses to the same bytes under both entry points.
#[verifier::external_body]
pub fn parse_any_address(s: &str) -> (r: Option<Vec<u8>>)
    ensures
        r is Some <==> address_from_any(s@) is Some,
        r is Some ==> address_from_any(s@) == Some(r.unwrap()@) && r.unwrap()@.len() == address_len(),
        friendly_address(s@) is Some ==> r is Some && friendly_address(s@) == Some(r.unwrap()@),
{
    nimiq_keys::Address::from_any_str(s).ok().map(|a| a.as_bytes().to_vec())
}

/// Relies on nimiq_keys::Address::burn_address and
/// Address::to_user_friendly_address: the burn address is the one the
/// source builds from exactly this literal, and formatting it yields
/// that literal back.
#[verifier::external_body]
pub fn burn_address_friendly() -> (r: String)
    ensures
        r@ == burn_address_str(),
{
    nimiq_keys::Address::burn_address().to_user_friendly_address()
}

} // verus!
