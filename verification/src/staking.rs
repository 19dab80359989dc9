//! The staking service: a position per pair of beneficiary and validator,
//! credited on behalf of callers on its allowlist and paid out to the
//! beneficiary.

use vstd::prelude::*;
use crate::account::AccountId;
use crate::actions::Transfer;
use crate::error::ContractError;
use crate::positions::{position_of, PairView, Positions};
use crate::roster::AccountSet;

verus! {

/// The position after a stake. A caller off the allowlist is refused; the
/// first stake opens the position; a sum beyond `u128::MAX` is refused. The
/// amount is not held against any balance.
pub open spec fn spec_add_stake(allowed: bool, current: Option<u128>, amount: u128) -> Result<
    u128,
    ContractError,
> {
    if !allowed {
        Err(ContractError::AccessDenied)
    } else {
        match current {
            None => Ok(amount),
            Some(position) => if position + amount > u128::MAX {
                Err(ContractError::Overflow)
            } else {
                Ok((position + amount) as u128)
            },
        }
    }
}

/// The position after a withdrawal. Refused in this order: a missing
/// position, for want of a stake; a zero amount; an empty position, for want
/// of a stake again; an amount above the position, for want of funds.
pub open spec fn spec_release_stake(current: Option<u128>, amount: u128) -> Result<
    u128,
    ContractError,
> {
    match current {
        None => Err(ContractError::NoStake),
        Some(position) => if amount == 0 {
            Err(ContractError::InvalidAmount)
        } else if position == 0 {
            Err(ContractError::NoStake)
        } else if position < amount {
            Err(ContractError::InsufficientFunds)
        } else {
            Ok((position - amount) as u128)
        },
    }
}

/// The text with which the service turns a withdrawal away, where it does.
/// The service tells an empty position from a missing one in its text, and
/// has a text of its own for an amount above the position.
pub open spec fn spec_release_refusal(current: Option<u128>, amount: u128) -> Option<Seq<char>> {
    match current {
        None => Some("No Stake"@),
        Some(position) => if amount == 0 {
            Some("Amount should not be 0"@)
        } else if position == 0 {
            Some("Nothing to withdraw"@)
        } else if position < amount {
            Some("Not enough funds to withdraw"@)
        } else {
            None
        },
    }
}

/// The recorded position, refused where there is none.
pub open spec fn spec_position(current: Option<u128>) -> Result<u128, ContractError> {
    match current {
        None => Err(ContractError::NoStake),
        Some(position) => Ok(position),
    }
}

/// A table with the position of `pair` replaced by the outcome of a rule; a
/// refusal leaves the table as it was.
pub open spec fn stored(
    table: Map<PairView, u128>,
    pair: PairView,
    outcome: Result<u128, ContractError>,
) -> Map<PairView, u128> {
    match outcome {
        Ok(position) => table.insert(pair, position),
        Err(_) => table,
    }
}

/// Computes the position after a stake.
pub fn add_stake(allowed: bool, current: Option<u128>, amount: u128) -> (outcome: Result<
    u128,
    ContractError,
>)
    ensures
        outcome == spec_add_stake(allowed, current, amount),
{
    if !allowed {
        return Err(ContractError::AccessDenied);
    }
    match current {
        None => Ok(amount),
        Some(position) => match position.checked_add(amount) {
            Some(total) => Ok(total),
            None => Err(ContractError::Overflow),
        },
    }
}

/// Computes the position after a withdrawal.
pub fn release_stake(current: Option<u128>, amount: u128) -> (outcome: Result<u128, ContractError>)
    ensures
        outcome == spec_release_stake(current, amount),
{
    match current {
        None => Err(ContractError::NoStake),
        Some(position) => if amount == 0 {
            Err(ContractError::InvalidAmount)
        } else if position == 0 {
            Err(ContractError::NoStake)
        } else if position < amount {
            Err(ContractError::InsufficientFunds)
        } else {
            Ok(position - amount)
        },
    }
}

/// Gives the text with which the service turns a withdrawal away: a text
/// exactly where the withdrawal is refused, and nothing where it goes
/// through.
pub fn release_refusal(current: Option<u128>, amount: u128) -> (text: Option<String>)
    ensures
        text is Some <==> spec_release_stake(current, amount) is Err,
        match text {
            Some(words) => spec_release_refusal(current, amount) == Some(words@),
            None => spec_release_refusal(current, amount) is None,
        },
{
    match current {
        None => Some("No Stake".to_owned()),
        Some(position) => if amount == 0 {
            Some("Amount should not be 0".to_owned())
        } else if position == 0 {
            Some("Nothing to withdraw".to_owned())
        } else if position < amount {
            Some("Not enough funds to withdraw".to_owned())
        } else {
            None
        },
    }
}

/// Reads the recorded position.
pub fn position(current: Option<u128>) -> (outcome: Result<u128, ContractError>)
    ensures
        outcome == spec_position(current),
{
    match current {
        None => Err(ContractError::NoStake),
        Some(position) => Ok(position),
    }
}

/// The staking service.
pub struct Staking {
    stake_map: Positions,
    allowlist: AccountSet,
}

impl View for Staking {
    type V = Map<PairView, u128>;

    closed spec fn view(&self) -> Map<PairView, u128> {
        self.stake_map@
    }
}

impl Staking {
    /// The accounts that may call `stake`.
    pub closed spec fn allowed(&self) -> Set<Seq<char>> {
        self.allowlist@
    }

    /// A service without positions whose allowlist holds `account` alone.
    pub fn new(account: AccountId) -> (service: Staking)
        ensures
            service@ == Map::<PairView, u128>::empty(),
            service.allowed() == Set::<Seq<char>>::empty().insert(account@),
    {
        let mut allowlist = AccountSet::new();
        allowlist.insert(&account);
        Staking { stake_map: Positions::new(), allowlist }
    }

    /// Credits `amount` to the position of `beneficiary` with `validator`, on
    /// behalf of `caller`, and returns the new position.
    pub fn stake(
        &mut self,
        caller: &AccountId,
        beneficiary: AccountId,
        validator: AccountId,
        amount: u128,
    ) -> (outcome: Result<u128, ContractError>)
        ensures
            outcome == spec_add_stake(
                old(self).allowed().contains(caller@),
                position_of(old(self)@, (beneficiary@, validator@)),
                amount,
            ),
            final(self)@ == stored(old(self)@, (beneficiary@, validator@), outcome),
            final(self).allowed() == old(self).allowed(),
            !old(self).allowed().contains(caller@) ==> {
                &&& outcome == Err::<u128, ContractError>(ContractError::AccessDenied)
                &&& final(self)@ == old(self)@
            },
    {
        let outcome = add_stake(
            self.allowlist.contains(caller),
            self.stake_map.get(&beneficiary, &validator),
            amount,
        );
        if let Ok(total) = outcome {
            self.stake_map.insert(&beneficiary, &validator, total);
        }
        outcome
    }

    /// Debits `amount` from the caller's position with `validator` and
    /// returns the transfer that pays it out.
    pub fn withdraw_stake(&mut self, caller: &AccountId, amount: u128, validator: AccountId) -> (outcome:
        Result<Transfer, ContractError>)
        ensures
            final(self)@ == stored(
                old(self)@,
                (caller@, validator@),
                spec_release_stake(position_of(old(self)@, (caller@, validator@)), amount),
            ),
            final(self).allowed() == old(self).allowed(),
            match outcome {
                Ok(transfer) => {
                    &&& spec_release_stake(position_of(old(self)@, (caller@, validator@)), amount)
                        is Ok
                    &&& transfer.receiver@ == caller@
                    &&& transfer.amount == amount
                },
                Err(refusal) => spec_release_stake(
                    position_of(old(self)@, (caller@, validator@)),
                    amount,
                ) == Err::<u128, ContractError>(refusal),
            },
            outcome is Ok <==> {
                &&& old(self)@.dom().contains((caller@, validator@))
                &&& amount != 0
                &&& old(self)@[(caller@, validator@)] != 0
                &&& amount <= old(self)@[(caller@, validator@)]
            },
            outcome matches Err(refusal) ==> {
                &&& final(self)@ == old(self)@
                &&& refusal == ContractError::NoStake || refusal == ContractError::InvalidAmount
                    || refusal == ContractError::InsufficientFunds
            },
    {
        match release_stake(self.stake_map.get(caller, &validator), amount) {
            Err(refusal) => Err(refusal),
            Ok(rest) => {
                self.stake_map.insert(caller, &validator, rest);
                Ok(Transfer { receiver: caller.clone(), amount })
            },
        }
    }

    /// The position of `account` with `validator`.
    pub fn view_stake(&self, account: &AccountId, validator: &AccountId) -> (outcome: Result<
        u128,
        ContractError,
    >)
        ensures
            outcome == spec_position(position_of(self@, (account@, validator@))),
    {
        position(self.stake_map.get(account, validator))
    }
}

} // verus!
