//! A minimal tipping contract.
//!
//! The contract stores a single designated receiver account and a fixed tip
//! amount, keeps an append-only list of registered receivers, and decides when
//! a tip of that amount may be transferred from the contract account's balance
//! to the receiver. The blockchain host supplies the account balance, the
//! initialized-state flag and the execution of scheduled transfers; here the
//! host is modeled by plain values, so that every decision the contract makes
//! is verified.

pub mod account;
pub mod contract;
pub mod host;
