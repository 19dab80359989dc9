//! What a service asks its host to do once a call has returned.

use vstd::prelude::*;
use crate::account::AccountId;

verus! {

/// A native transfer that the host is to make once the call has returned.
#[derive(Debug, PartialEq)]
pub struct Transfer {
    pub receiver: AccountId,
    pub amount: u128,
}

/// A staking call that the host is to dispatch, with the continuation that is
/// to receive its outcome: `resolve_staking(outcome, amount, beneficiary)`.
#[derive(Debug, PartialEq)]
pub struct StakeCall {
    /// The staking service that is called.
    pub target: AccountId,
    pub beneficiary: AccountId,
    pub validator: AccountId,
    pub amount: u128,
    /// Gas for the call.
    pub gas: u64,
    /// Gas for the continuation.
    pub callback_gas: u64,
}

} // verus!
