//! The deposit ledger that delegates staking. A stake request is validated
//! against the balance as it stands, then handed out as a call to the staking
//! service; the balance is debited only when the outcome of that call comes
//! back.

use vstd::prelude::*;
use crate::account::AccountId;
use crate::actions::{StakeCall, Transfer};
use crate::balances::{balance_of, Balances};
use crate::error::{ContractError, PromiseError};
use crate::ledger::{
    balance, check_funds, credit, debit, recorded, spec_balance, spec_check_funds, spec_credit,
    spec_debit, spec_withdraw, withdraw,
};
use crate::units::TGAS;

verus! {

/// The gas given to a dispatched staking call, and to its continuation.
pub const STAKE_GAS: u64 = 3 * TGAS;

/// What the continuation of a stake call does to a balance record: a failed
/// call is surfaced, a successful one debits the amount.
pub open spec fn spec_settle(
    call_result: Result<(), PromiseError>,
    current: Option<u128>,
    amount: u128,
) -> Result<u128, ContractError> {
    match call_result {
        Err(failure) => Err(ContractError::StakingFailure(failure)),
        Ok(_) => spec_debit(current, amount),
    }
}

/// Computes the balance that the continuation of a stake call leaves.
pub fn settle(call_result: Result<(), PromiseError>, current: Option<u128>, amount: u128) -> (outcome:
    Result<u128, ContractError>)
    ensures
        outcome == spec_settle(call_result, current, amount),
{
    match call_result {
        Err(failure) => Err(ContractError::StakingFailure(failure)),
        Ok(_) => debit(current, amount),
    }
}

/// The deposit ledger: a balance per account, and the staking service that
/// stake requests are sent to.
pub struct ReentrancyCheck {
    user_near: Balances,
    staking_contract: AccountId,
}

impl View for ReentrancyCheck {
    type V = Map<Seq<char>, u128>;

    closed spec fn view(&self) -> Map<Seq<char>, u128> {
        self.user_near@
    }
}

impl ReentrancyCheck {
    /// The staking service that stake requests are sent to.
    pub closed spec fn staking_target(&self) -> Seq<char> {
        self.staking_contract@
    }

    /// A ledger without balances.
    pub fn new(staking_contract: AccountId) -> (ledger: ReentrancyCheck)
        ensures
            ledger@ == Map::<Seq<char>, u128>::empty(),
            ledger.staking_target() == staking_contract@,
    {
        ReentrancyCheck { user_near: Balances::new(), staking_contract }
    }

    /// Credits `deposit` to the caller and returns the new balance.
    pub fn deposit_near(&mut self, caller: &AccountId, deposit: u128) -> (outcome: Result<
        u128,
        ContractError,
    >)
        ensures
            outcome == spec_credit(balance_of(old(self)@, caller@), deposit),
            final(self)@ == recorded(old(self)@, caller@, outcome),
            final(self).staking_target() == old(self).staking_target(),
    {
        let outcome = credit(self.user_near.get(caller), deposit);
        if let Ok(total) = outcome {
            self.user_near.insert(caller, total);
        }
        outcome
    }

    /// Validates a stake request against the caller's balance as it stands and
    /// returns the call to dispatch. The balance is not touched.
    pub fn stake(&self, caller: &AccountId, validator: AccountId, amount: u128) -> (outcome: Result<
        StakeCall,
        ContractError,
    >)
        ensures
            match outcome {
                Ok(call) => {
                    &&& spec_check_funds(balance_of(self@, caller@), amount) is Ok
                    &&& call.target@ == self.staking_target()
                    &&& call.beneficiary@ == caller@
                    &&& call.validator@ == validator@
                    &&& call.amount == amount
                    &&& call.gas == STAKE_GAS
                    &&& call.callback_gas == STAKE_GAS
                },
                Err(refusal) => spec_check_funds(balance_of(self@, caller@), amount) == Err::<
                    u128,
                    ContractError,
                >(refusal),
            },
    {
        match check_funds(self.user_near.get(caller), amount) {
            Err(refusal) => Err(refusal),
            Ok(_) => Ok(
                StakeCall {
                    target: self.staking_contract.clone(),
                    beneficiary: caller.clone(),
                    validator,
                    amount,
                    gas: STAKE_GAS,
                    callback_gas: STAKE_GAS,
                },
            ),
        }
    }

    /// Debits `amount` from the caller and returns the transfer that pays it
    /// out.
    pub fn withdraw_near(&mut self, caller: &AccountId, amount: u128) -> (outcome: Result<
        Transfer,
        ContractError,
    >)
        ensures
            final(self)@ == recorded(
                old(self)@,
                caller@,
                spec_withdraw(balance_of(old(self)@, caller@), amount),
            ),
            final(self).staking_target() == old(self).staking_target(),
            match outcome {
                Ok(transfer) => {
                    &&& spec_withdraw(balance_of(old(self)@, caller@), amount) is Ok
                    &&& transfer.receiver@ == caller@
                    &&& transfer.amount == amount
                },
                Err(refusal) => spec_withdraw(balance_of(old(self)@, caller@), amount) == Err::<
                    u128,
                    ContractError,
                >(refusal),
            },
            balance_of(old(self)@, caller@) matches Some(held) && amount > held ==> {
                &&& outcome == Err::<Transfer, ContractError>(ContractError::InsufficientFunds)
                &&& final(self)@ == old(self)@
            },
    {
        match withdraw(self.user_near.get(caller), amount) {
            Err(refusal) => Err(refusal),
            Ok(rest) => {
                self.user_near.insert(caller, rest);
                Ok(Transfer { receiver: caller.clone(), amount })
            },
        }
    }

    /// The continuation of a stake call: surfaces a failed call, and debits
    /// the amount after a successful one. Returns the new balance.
    pub fn resolve_staking(
        &mut self,
        call_result: Result<(), PromiseError>,
        amount: u128,
        caller: &AccountId,
    ) -> (outcome: Result<u128, ContractError>)
        ensures
            outcome == spec_settle(call_result, balance_of(old(self)@, caller@), amount),
            final(self)@ == recorded(old(self)@, caller@, outcome),
            final(self).staking_target() == old(self).staking_target(),
    {
        match call_result {
            Err(failure) => Err(ContractError::StakingFailure(failure)),
            Ok(_) => self.decrease_balance(caller, amount),
        }
    }

    /// The balance of `acc`.
    pub fn view_near_deposit(&self, acc: &AccountId) -> (outcome: Result<u128, ContractError>)
        ensures
            outcome == spec_balance(balance_of(self@, acc@)),
    {
        balance(self.user_near.get(acc))
    }

    /// Debits `amount` from `account` and returns the new balance.
    pub fn decrease_balance(&mut self, account: &AccountId, amount: u128) -> (outcome: Result<
        u128,
        ContractError,
    >)
        ensures
            outcome == spec_debit(balance_of(old(self)@, account@), amount),
            final(self)@ == recorded(old(self)@, account@, outcome),
            final(self).staking_target() == old(self).staking_target(),
    {
        let outcome = debit(self.user_near.get(account), amount);
        if let Ok(rest) = outcome {
            self.user_near.insert(account, rest);
        }
        outcome
    }
}

} // verus!
