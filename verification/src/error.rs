//! The ways a call to one of the services can be refused.

use vstd::prelude::*;

verus! {

/// Why a dispatched remote call did not produce a value.
#[derive(Debug, Clone, Copy, PartialEq, Eq, Structural)]
pub enum PromiseError {
    /// The remote call ran and failed.
    Failed,
    /// The outcome was not available when the continuation ran.
    NotReady,
}

/// A refused call. The service's state is left as it was.
#[derive(Debug, Clone, Copy, PartialEq, Eq, Structural)]
pub enum ContractError {
    /// The attached deposit is below the minimum unit.
    InsufficientDeposit,
    /// The account has no balance record.
    AccountNotFound,
    /// The amount exceeds what the account or position holds.
    InsufficientFunds,
    /// The dispatched staking call did not succeed.
    StakingFailure(PromiseError),
    /// The caller is not on the allowlist.
    AccessDenied,
    /// The amount is zero.
    InvalidAmount,
    /// No stake is there to act on: the pair has no position, or an empty one.
    NoStake,
    /// A credit would exceed the largest representable amount.
    Overflow,
    /// A debit would go below zero.
    Underflow,
    /// The caller is not the owner.
    NotOwner,
    /// The service is paused.
    Paused,
    /// Sender and receiver of a transfer are the same account.
    SelfTransfer,
}

/// The four kinds of refusal.
#[derive(Debug, Clone, Copy, PartialEq, Eq, Structural)]
pub enum ErrorKind {
    /// A precondition of the call is not met.
    Validation,
    /// The caller is not entitled to the call.
    AccessDenied,
    /// An amount would leave the range of `u128`.
    Arithmetic,
    /// A dispatched remote call failed.
    RemoteCallFailure,
}

impl ContractError {
    /// The kind of this refusal.
    pub open spec fn spec_kind(self) -> ErrorKind {
        match self {
            ContractError::InsufficientDeposit => ErrorKind::Validation,
            ContractError::AccountNotFound => ErrorKind::Validation,
            ContractError::InsufficientFunds => ErrorKind::Validation,
            ContractError::StakingFailure(_) => ErrorKind::RemoteCallFailure,
            ContractError::AccessDenied => ErrorKind::AccessDenied,
            ContractError::InvalidAmount => ErrorKind::Validation,
            ContractError::NoStake => ErrorKind::Validation,
            ContractError::Overflow => ErrorKind::Arithmetic,
            ContractError::Underflow => ErrorKind::Arithmetic,
            ContractError::NotOwner => ErrorKind::AccessDenied,
            ContractError::Paused => ErrorKind::Validation,
            ContractError::SelfTransfer => ErrorKind::Validation,
        }
    }

    /// The kind of this refusal.
    pub fn kind(&self) -> (kind: ErrorKind)
        ensures
            kind == self.spec_kind(),
    {
        match self {
            ContractError::StakingFailure(_) => ErrorKind::RemoteCallFailure,
            ContractError::AccessDenied | ContractError::NotOwner => ErrorKind::AccessDenied,
            ContractError::Overflow | ContractError::Underflow => ErrorKind::Arithmetic,
            _ => ErrorKind::Validation,
        }
    }

    /// The text a host reports for this refusal.
    pub open spec fn spec_message(self) -> Seq<char> {
        match self {
            ContractError::InsufficientDeposit => "Not enough deposit"@,
            ContractError::AccountNotFound => "User does not exist"@,
            ContractError::InsufficientFunds => "Not enough money"@,
            ContractError::StakingFailure(PromiseError::Failed) => "ERROR STAKING: Failed"@,
            ContractError::StakingFailure(PromiseError::NotReady) => "ERROR STAKING: NotReady"@,
            ContractError::AccessDenied => "ACCESS DENIED"@,
            ContractError::InvalidAmount => "Amount should not be 0"@,
            ContractError::NoStake => "No Stake"@,
            ContractError::Overflow => "Addition with overflow"@,
            ContractError::Underflow => "Subtract with underflow"@,
            ContractError::NotOwner => "Only owner can call this function"@,
            ContractError::Paused => "Function is paused"@,
            ContractError::SelfTransfer => "Cannot transfer to yourself"@,
        }
    }

    /// The text a host reports for this refusal. The staking service words
    /// a refused withdrawal itself: see `staking::release_refusal`.
    pub fn message(&self) -> (text: String)
        ensures
            text@ == self.spec_message(),
    {
        let text: &str = match self {
            ContractError::InsufficientDeposit => "Not enough deposit",
            ContractError::AccountNotFound => "User does not exist",
            ContractError::InsufficientFunds => "Not enough money",
            ContractError::StakingFailure(PromiseError::Failed) => "ERROR STAKING: Failed",
            ContractError::StakingFailure(PromiseError::NotReady) => "ERROR STAKING: NotReady",
            ContractError::AccessDenied => "ACCESS DENIED",
            ContractError::InvalidAmount => "Amount should not be 0",
            ContractError::NoStake => "No Stake",
            ContractError::Overflow => "Addition with overflow",
            ContractError::Underflow => "Subtract with underflow",
            ContractError::NotOwner => "Only owner can call this function",
            ContractError::Paused => "Function is paused",
            ContractError::SelfTransfer => "Cannot transfer to yourself",
        };
        text.to_owned()
    }
}

} // verus!
