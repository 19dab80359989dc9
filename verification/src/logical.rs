//! The fungible deposit ledger: deposits, withdrawals, and transfers between
//! accounts that both hold a record.

use vstd::prelude::*;
use crate::account::AccountId;
use crate::actions::Transfer;
use crate::balances::{balance_of, Balances};
use crate::error::ContractError;
use crate::ledger::{
    balance, credit, debit, recorded, spec_balance, spec_credit, spec_debit, spec_withdraw,
    withdraw,
};

verus! {

/// The two balances after a transfer, the sender's first. Refused in this
/// order: a sender without a record, an amount above the sender's balance, a
/// receiver without a record, a receiver's balance that would exceed
/// `u128::MAX`.
pub open spec fn spec_transfer(sender: Option<u128>, receiver: Option<u128>, amount: u128) -> Result<
    (u128, u128),
    ContractError,
> {
    match sender {
        None => Err(ContractError::AccountNotFound),
        Some(from) => if amount > from {
            Err(ContractError::InsufficientFunds)
        } else {
            match receiver {
                None => Err(ContractError::AccountNotFound),
                Some(to) => if to + amount > u128::MAX {
                    Err(ContractError::Overflow)
                } else {
                    Ok(((from - amount) as u128, (to + amount) as u128))
                },
            }
        },
    }
}

/// The table after a transfer: the sender's record is written first and the
/// receiver's second, so where the two are one account the credit is what
/// stays. A refusal leaves the table as it was.
pub open spec fn after_transfer(
    table: Map<Seq<char>, u128>,
    sender: Seq<char>,
    receiver: Seq<char>,
    amount: u128,
) -> Map<Seq<char>, u128> {
    match spec_transfer(balance_of(table, sender), balance_of(table, receiver), amount) {
        Ok((from, to)) => table.insert(sender, from).insert(receiver, to),
        Err(_) => table,
    }
}

/// The two balances after a transfer that a caller asks for: a transfer to
/// oneself is refused before anything else is looked at.
pub open spec fn spec_transfer_request(
    same_account: bool,
    sender: Option<u128>,
    receiver: Option<u128>,
    amount: u128,
) -> Result<(u128, u128), ContractError> {
    if same_account {
        Err(ContractError::SelfTransfer)
    } else {
        spec_transfer(sender, receiver, amount)
    }
}

/// Computes the two balances after a transfer that a caller asks for.
/// `same_account` says whether sender and receiver are one account.
pub fn transfer_request(
    same_account: bool,
    sender: Option<u128>,
    receiver: Option<u128>,
    amount: u128,
) -> (outcome: Result<(u128, u128), ContractError>)
    ensures
        outcome == spec_transfer_request(same_account, sender, receiver, amount),
{
    if same_account {
        return Err(ContractError::SelfTransfer);
    }
    transfer(sender, receiver, amount)
}

/// Computes the two balances after a transfer.
pub fn transfer(sender: Option<u128>, receiver: Option<u128>, amount: u128) -> (outcome: Result<
    (u128, u128),
    ContractError,
>)
    ensures
        outcome == spec_transfer(sender, receiver, amount),
{
    let from = match sender {
        None => { return Err(ContractError::AccountNotFound); },
        Some(from) => from,
    };
    if amount > from {
        return Err(ContractError::InsufficientFunds);
    }
    let to = match receiver {
        None => { return Err(ContractError::AccountNotFound); },
        Some(to) => to,
    };
    let rest = match from.checked_sub(amount) {
        None => { return Err(ContractError::Underflow); },
        Some(rest) => rest,
    };
    match to.checked_add(amount) {
        None => Err(ContractError::Overflow),
        Some(total) => Ok((rest, total)),
    }
}

/// The fungible deposit ledger: a balance per account.
pub struct FungibleToken {
    user_near: Balances,
}

impl View for FungibleToken {
    type V = Map<Seq<char>, u128>;

    closed spec fn view(&self) -> Map<Seq<char>, u128> {
        self.user_near@
    }
}

impl Default for FungibleToken {
    /// A ledger without balances.
    fn default() -> (ledger: FungibleToken)
        ensures
            ledger@ == Map::<Seq<char>, u128>::empty(),
    {
        FungibleToken { user_near: Balances::new() }
    }
}

impl FungibleToken {
    /// Credits `deposit` to the caller and returns the new balance.
    pub fn deposit_near(&mut self, caller: &AccountId, deposit: u128) -> (outcome: Result<
        u128,
        ContractError,
    >)
        ensures
            outcome == spec_credit(balance_of(old(self)@, caller@), deposit),
            final(self)@ == recorded(old(self)@, caller@, outcome),
    {
        let outcome = credit(self.user_near.get(caller), deposit);
        if let Ok(total) = outcome {
            self.user_near.insert(caller, total);
        }
        outcome
    }

    /// Moves `amount` from `sender` to `receiver`, who must be another
    /// account. Returns the two new balances, the sender's first.
    pub fn transfer_near(&mut self, sender: &AccountId, receiver: AccountId, amount: u128) -> (outcome:
        Result<(u128, u128), ContractError>)
        ensures
            outcome == spec_transfer_request(
                sender@ == receiver@,
                balance_of(old(self)@, sender@),
                balance_of(old(self)@, receiver@),
                amount,
            ),
            sender@ == receiver@ ==> final(self)@ == old(self)@,
            sender@ != receiver@ ==> final(self)@ == after_transfer(
                old(self)@,
                sender@,
                receiver@,
                amount,
            ),
    {
        if sender.same(&receiver) {
            return Err(ContractError::SelfTransfer);
        }
        self.internal_transfer_near(sender, &receiver, amount)
    }

    /// Debits `amount` from the caller and returns the transfer that pays it
    /// out.
    pub fn withdraw_near(&mut self, caller: &AccountId, amount: u128) -> (outcome: Result<
        Transfer,
        ContractError,
    >)
        ensures
            final(self)@ == recorded(
                old(self)@,
                caller@,
                spec_withdraw(balance_of(old(self)@, caller@), amount),
            ),
            match outcome {
                Ok(transfer) => {
                    &&& spec_withdraw(balance_of(old(self)@, caller@), amount) is Ok
                    &&& transfer.receiver@ == caller@
                    &&& transfer.amount == amount
                },
                Err(refusal) => spec_withdraw(balance_of(old(self)@, caller@), amount) == Err::<
                    u128,
                    ContractError,
                >(refusal),
            },
            balance_of(old(self)@, caller@) matches Some(held) && amount > held ==> {
                &&& outcome == Err::<Transfer, ContractError>(ContractError::InsufficientFunds)
                &&& final(self)@ == old(self)@
            },
    {
        match withdraw(self.user_near.get(caller), amount) {
            Err(refusal) => Err(refusal),
            Ok(_) => match self.decrease_balance(caller, amount) {
                Err(refusal) => Err(refusal),
                Ok(_) => Ok(Transfer { receiver: caller.clone(), amount }),
            },
        }
    }

    /// The balance of `acc`.
    pub fn view_near_deposit(&self, acc: &AccountId) -> (outcome: Result<u128, ContractError>)
        ensures
            outcome == spec_balance(balance_of(self@, acc@)),
    {
        balance(self.user_near.get(acc))
    }

    fn decrease_balance(&mut self, account: &AccountId, amount: u128) -> (outcome: Result<
        u128,
        ContractError,
    >)
        ensures
            outcome == spec_debit(balance_of(old(self)@, account@), amount),
            final(self)@ == recorded(old(self)@, account@, outcome),
    {
        let outcome = debit(self.user_near.get(account), amount);
        if let Ok(rest) = outcome {
            self.user_near.insert(account, rest);
        }
        outcome
    }

    /// Moves `amount` from `sender` to `receiver` without asking whether the
    /// two differ. Returns the two new balances, the sender's first.
    pub fn internal_transfer_near(
        &mut self,
        sender: &AccountId,
        receiver: &AccountId,
        amount: u128,
    ) -> (outcome: Result<(u128, u128), ContractError>)
        ensures
            outcome == spec_transfer(
                balance_of(old(self)@, sender@),
                balance_of(old(self)@, receiver@),
                amount,
            ),
            final(self)@ == after_transfer(old(self)@, sender@, receiver@, amount),
    {
        let outcome = transfer(self.user_near.get(sender), self.user_near.get(receiver), amount);
        if let Ok((from, to)) = outcome {
            self.user_near.insert(sender, from);
            self.user_near.insert(receiver, to);
        }
        outcome
    }
}

} // verus!
