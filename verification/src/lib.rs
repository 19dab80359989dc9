//! Verified models of a family of NEAR ledger services: a pausable status
//! board, a user registry, a fungible deposit ledger, and a deposit ledger
//! that delegates staking to a separate staking service through an
//! asynchronous call and a later continuation.
//!
//! Every service keeps its tables as owned values, takes the caller's identity
//! as an argument, and reports a rejected call as an error value with the
//! state left as it was.

pub mod access_control;
pub mod account;
pub mod actions;
pub mod balances;
pub mod batch;
pub mod denial_of_service;
pub mod deposit;
pub mod error;
pub mod ledger;
pub mod logical;
pub mod positions;
pub mod roster;
pub mod staking;
pub mod theorems;
pub mod units;
