//! Settlement and reconciliation engine for a peer-to-peer crypto-for-fiat
//! marketplace.
//!
//! The crate tracks a per-user balance ledger, matches and expires offers and
//! transactions against that ledger, and reconciles asynchronous on-chain
//! deposit and withdrawal confirmations exactly once.  Everything here is
//! plain data and verified logic; the surrounding process supplies identity,
//! storage, HTTP routing and the chain client, and feeds their results in as
//! arguments.
#![verifier::loop_isolation(false)]

pub mod api;
pub mod auth;
pub mod book;
pub mod config;
pub mod deposit;
pub mod encoding;
pub mod engine;
pub mod errors;
pub mod ledger;
pub mod util;
pub mod withdraw;
