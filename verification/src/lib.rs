//! Reputation-weighted governance: a decaying reputation ledger, a proposal
//! engine that weighs votes by reputation snapshots, and a share vault with an
//! escrow sub-ledger.
//!
//! Each component is an explicit state object. Its operations take the time
//! and the authorizations of the call as arguments, and return what the call
//! asks of the world outside: a deposit, a payment, the actions of a
//! proposal. An operation that refuses returns a typed error and leaves the
//! state as it was.

pub mod address;
pub mod governor;
pub mod treasury;
pub mod valocracy;
