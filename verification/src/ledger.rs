//! The balance rules that the deposit ledgers share. Each rule takes what the
//! table records for the account and says what the new record is, or why the
//! call is refused.

use vstd::prelude::*;
use crate::error::ContractError;
use crate::units::{one_near, ONE_NEAR};

verus! {

/// The balance after a deposit. A deposit below one NEAR is refused; the
/// first deposit opens the record; a sum beyond `u128::MAX` is refused.
pub open spec fn spec_credit(current: Option<u128>, deposit: u128) -> Result<u128, ContractError> {
    if deposit < ONE_NEAR {
        Err(ContractError::InsufficientDeposit)
    } else {
        match current {
            None => Ok(deposit),
            Some(balance) => if balance + deposit > u128::MAX {
                Err(ContractError::Overflow)
            } else {
                Ok((balance + deposit) as u128)
            },
        }
    }
}

/// The balance that covers `amount`. A missing record and an amount above the
/// balance are refused.
pub open spec fn spec_check_funds(current: Option<u128>, amount: u128) -> Result<
    u128,
    ContractError,
> {
    match current {
        None => Err(ContractError::AccountNotFound),
        Some(balance) => if amount > balance {
            Err(ContractError::InsufficientFunds)
        } else {
            Ok(balance)
        },
    }
}

/// The balance after a debit. A missing record is refused, and so is a debit
/// that would go below zero.
pub open spec fn spec_debit(current: Option<u128>, amount: u128) -> Result<u128, ContractError> {
    match current {
        None => Err(ContractError::AccountNotFound),
        Some(balance) => if amount > balance {
            Err(ContractError::Underflow)
        } else {
            Ok((balance - amount) as u128)
        },
    }
}

/// The balance after a withdrawal: the funds are checked, then debited.
pub open spec fn spec_withdraw(current: Option<u128>, amount: u128) -> Result<
    u128,
    ContractError,
> {
    match spec_check_funds(current, amount) {
        Err(refusal) => Err(refusal),
        Ok(_) => spec_debit(current, amount),
    }
}

/// The recorded balance, refused where there is no record.
pub open spec fn spec_balance(current: Option<u128>) -> Result<u128, ContractError> {
    match current {
        None => Err(ContractError::AccountNotFound),
        Some(balance) => Ok(balance),
    }
}

/// A table with the record of `who` replaced by the outcome of a rule; a
/// refusal leaves the table as it was.
pub open spec fn recorded(
    table: Map<Seq<char>, u128>,
    who: Seq<char>,
    outcome: Result<u128, ContractError>,
) -> Map<Seq<char>, u128> {
    match outcome {
        Ok(balance) => table.insert(who, balance),
        Err(_) => table,
    }
}

/// Computes the balance after a deposit.
pub fn credit(current: Option<u128>, deposit: u128) -> (outcome: Result<u128, ContractError>)
    ensures
        outcome == spec_credit(current, deposit),
{
    if deposit < one_near() {
        return Err(ContractError::InsufficientDeposit);
    }
    match current {
        None => Ok(deposit),
        Some(balance) => match balance.checked_add(deposit) {
            Some(total) => Ok(total),
            None => Err(ContractError::Overflow),
        },
    }
}

/// Checks that the recorded balance covers `amount`, and returns the balance.
pub fn check_funds(current: Option<u128>, amount: u128) -> (outcome: Result<u128, ContractError>)
    ensures
        outcome == spec_check_funds(current, amount),
{
    match current {
        None => Err(ContractError::AccountNotFound),
        Some(balance) => if amount > balance {
            Err(ContractError::InsufficientFunds)
        } else {
            Ok(balance)
        },
    }
}

/// Computes the balance after a debit.
pub fn debit(current: Option<u128>, amount: u128) -> (outcome: Result<u128, ContractError>)
    ensures
        outcome == spec_debit(current, amount),
{
    match current {
        None => Err(ContractError::AccountNotFound),
        Some(balance) => match balance.checked_sub(amount) {
            Some(rest) => Ok(rest),
            None => Err(ContractError::Underflow),
        },
    }
}

/// Computes the balance after a withdrawal.
pub fn withdraw(current: Option<u128>, amount: u128) -> (outcome: Result<u128, ContractError>)
    ensures
        outcome == spec_withdraw(current, amount),
{
    match check_funds(current, amount) {
        Err(refusal) => Err(refusal),
        Ok(_) => debit(current, amount),
    }
}

/// Reads the recorded balance.
pub fn balance(current: Option<u128>) -> (outcome: Result<u128, ContractError>)
    ensures
        outcome == spec_balance(current),
{
    match current {
        None => Err(ContractError::AccountNotFound),
        Some(balance) => Ok(balance),
    }
}

} // verus!
