//! A two-party, stake-escrowed coin flip whose randomness comes from an
//! external oracle service.
//!
//! The library verifies the escrow core: the `Coin` and `Vault` records, the
//! derived-address authority model, the session state machine driven by
//! [`protocol::create_coin`], [`protocol::approve_flip`] and
//! [`protocol::reveal_coin`], and the contract assumed of the oracle's
//! requester resource. The surrounding ledger runtime (account storage,
//! signature checks, atomic execution) is modelled by [`ledger::Ledger`];
//! address derivation is the runtime's own, reached through a trusted call.

pub mod keys;
pub mod error;
pub mod accounts;
pub mod ledger;
pub mod pda;
pub mod oracle;
pub mod protocol;
pub mod laws;
