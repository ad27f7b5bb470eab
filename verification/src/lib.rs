//! Release-authorization policies for a ledger-hosted contract.
//!
//! Four independent policies gate the conceptual release of a held value:
//! a multi-party signature quorum, an absolute time deadline, an externally
//! fulfilled condition checklist, and a time-delayed escrow. All four share
//! one keyed store (one slot per [`types::DataKey`]) and a set-once admin
//! identity.
//!
//! The surrounding ledger is modeled explicitly rather than called: the
//! stored state is a plain value ([`contract::StellarSmartContracts`]),
//! the identity that authenticated the current call is a parameter, and the
//! ledger clock is a `u64` argument. Every operation's effect on the store
//! is stated in its contract and proved.

pub mod contract;
pub mod decimal;
pub mod laws;
pub mod tally;
pub mod types;
