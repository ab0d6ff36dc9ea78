//! Migration of a proof-of-work ledger into the bootstrap state of a
//! proof-of-stake successor chain.
//!
//! The crate covers the three algorithmic cores of the migration:
//! decoding validator registrations from on-chain transaction envelopes
//! ([`validators`]), converting the legacy account tree into genesis
//! account records with re-based time semantics ([`accounts`]), and the
//! readiness-quorum controller that decides when the migration may
//! proceed ([`monitor`]). The [`genesis`] module merges their outputs
//! into one genesis record. Chain access, durable storage and
//! serialization stay outside the library; callers hand in plain values.

pub mod accounts;
pub mod coin;
pub mod codec;
pub mod genesis;
pub mod history;
pub mod keys;
pub mod monitor;
pub mod policy;
pub mod types;
pub mod validators;
