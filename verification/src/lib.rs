//! A poll contract over a key-value store.
//!
//! The contract keeps one configuration record and one record per named poll
//! in a byte store. Every entry point is verified against an abstract
//! [`ledger::Ledger`]: its contract says which ledger the store holds after
//! the call and what the caller gets back, for every store and every message.
//!
//! - [`state`], [`msg`], [`error`]: the records, the messages and the failures.
//! - [`ledger`]: the ledger and its steps.
//! - [`laws`]: what holds of the steps over several calls.
//! - [`keys`], [`layout`]: where the ledger's records lie in the store.
//! - [`store`]: the store itself and the other outside items, taken on trust.
//! - [`contract`]: the entry points.

pub mod contract;
pub mod error;
pub mod keys;
pub mod laws;
pub mod layout;
pub mod ledger;
pub mod msg;
pub mod state;
pub mod store;
