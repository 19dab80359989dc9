use near_section::account::AccountId;
use near_section::actions::{StakeCall, Transfer};
use near_section::batch::{
    call_result, deliver, failed_calls, stake_batch, succeeded, StakeRequest,
};
use near_section::deposit::{settle, ReentrancyCheck, STAKE_GAS};
use near_section::error::{ContractError, ErrorKind, PromiseError};
use near_section::staking::Staking;
use near_section::units::{ONE_NEAR, TGAS};

const DEPOSIT_AMOUNT: u128 = ONE_NEAR * 20;

fn id(name: &str) -> AccountId {
    AccountId::new(name.to_string())
}

fn prepare_race_condition() -> (ReentrancyCheck, AccountId, Staking, AccountId) {
    let deposit_id = id("deposit.test.near");
    let staking_id = id("staking.test.near");
    let deposit_contract = ReentrancyCheck::new(staking_id.clone());
    let staking_contract = Staking::new(deposit_id.clone());
    (deposit_contract, deposit_id, staking_contract, id("exploit.test.near"))
}

fn stake_request(validator: &str, amount: u128) -> StakeRequest {
    StakeRequest { validator: id(validator), amount }
}

#[test]
fn exploit_race_condition() {
    let (mut deposit_contract, deposit_id, mut staking_contract, exploit) =
        prepare_race_condition();

    let res = deposit_contract.deposit_near(&exploit, DEPOSIT_AMOUNT);
    assert!(res.is_ok(), "Deposit Failed: {:?}", res);

    let requests = vec![
        stake_request("test.near", DEPOSIT_AMOUNT),
        stake_request("test.near", DEPOSIT_AMOUNT),
    ];
    let batch = stake_batch(
        &mut deposit_contract,
        &deposit_id,
        &mut staking_contract,
        &exploit,
        &requests,
    );

    let failures: Vec<&ContractError> = batch.iter().filter_map(|r| r.as_ref().err()).collect();
    assert_eq!(failures.is_empty(), false, "Exploit failed");
    assert_eq!(failures.len(), 1);

    let is_correct_failure = failures.iter().any(|f| {
        format!("Smart contract panicked: {}", f.message())
            .contains("Smart contract panicked: Subtract with underflow")
    });
    assert_eq!(is_correct_failure, true, "Exploit failed");
    assert_eq!(batch, vec![Ok(0), Err(ContractError::Underflow)]);
    assert_eq!(failed_calls(&batch), 1);
    assert_eq!(succeeded(&batch), false);
    assert_eq!(ContractError::Underflow.kind(), ErrorKind::Arithmetic);

    let staked_amount = staking_contract.view_stake(&exploit, &id("test.near")).unwrap();
    assert_eq!(staked_amount, DEPOSIT_AMOUNT * 2);
    assert_eq!(deposit_contract.view_near_deposit(&exploit), Ok(0));

    let res = staking_contract.withdraw_stake(&exploit, DEPOSIT_AMOUNT * 2, id("test.near"));
    assert!(res.is_ok(), "Withdraw Failed: {:?}", res);
    assert_eq!(res, Ok(Transfer { receiver: exploit.clone(), amount: DEPOSIT_AMOUNT * 2 }));

    let staked_amount = staking_contract.view_stake(&exploit, &id("test.near")).unwrap();
    assert_eq!(staked_amount, 0);
}

#[test]
fn single_stake_leaves_forty_and_sixty() {
    let (mut ledger, ledger_id, mut staking, alice) = prepare_race_condition();
    assert_eq!(ledger.deposit_near(&alice, 100 * ONE_NEAR), Ok(100 * ONE_NEAR));

    let call = ledger.stake(&alice, id("validator.near"), 60 * ONE_NEAR).unwrap();
    assert_eq!(
        call,
        StakeCall {
            target: id("staking.test.near"),
            beneficiary: alice.clone(),
            validator: id("validator.near"),
            amount: 60 * ONE_NEAR,
            gas: 3_000_000_000_000,
            callback_gas: 3_000_000_000_000,
        }
    );
    // Nothing is debited until the continuation runs.
    assert_eq!(ledger.view_near_deposit(&alice), Ok(100 * ONE_NEAR));

    let remote = staking.stake(&ledger_id, call.beneficiary, call.validator, call.amount);
    assert_eq!(remote, Ok(60 * ONE_NEAR));
    assert_eq!(staking.view_stake(&alice, &id("validator.near")), Ok(60 * ONE_NEAR));
    assert_eq!(ledger.view_near_deposit(&alice), Ok(100 * ONE_NEAR));

    let settled = ledger.resolve_staking(call_result(remote), call.amount, &alice);
    assert_eq!(settled, Ok(40 * ONE_NEAR));
    assert_eq!(ledger.view_near_deposit(&alice), Ok(40 * ONE_NEAR));
    assert_eq!(staking.view_stake(&alice, &id("validator.near")), Ok(60 * ONE_NEAR));
}

#[test]
fn single_stake_through_a_batch() {
    let (mut ledger, ledger_id, mut staking, alice) = prepare_race_condition();
    ledger.deposit_near(&alice, 100 * ONE_NEAR).unwrap();
    let report = stake_batch(
        &mut ledger,
        &ledger_id,
        &mut staking,
        &alice,
        &vec![stake_request("validator.near", 60 * ONE_NEAR)],
    );
    assert_eq!(report, vec![Ok(40 * ONE_NEAR)]);
    assert_eq!(succeeded(&report), true);
    assert_eq!(ledger.view_near_deposit(&alice), Ok(40 * ONE_NEAR));
    assert_eq!(staking.view_stake(&alice, &id("validator.near")), Ok(60 * ONE_NEAR));
}

#[test]
fn sequential_stakes_do_not_race() {
    let (mut ledger, ledger_id, mut staking, alice) = prepare_race_condition();
    ledger.deposit_near(&alice, DEPOSIT_AMOUNT).unwrap();
    let first = stake_batch(
        &mut ledger,
        &ledger_id,
        &mut staking,
        &alice,
        &vec![stake_request("test.near", DEPOSIT_AMOUNT)],
    );
    let second = stake_batch(
        &mut ledger,
        &ledger_id,
        &mut staking,
        &alice,
        &vec![stake_request("test.near", DEPOSIT_AMOUNT)],
    );
    assert_eq!(first, vec![Ok(0)]);
    assert_eq!(second, vec![Err(ContractError::InsufficientFunds)]);
    assert_eq!(staking.view_stake(&alice, &id("test.near")), Ok(DEPOSIT_AMOUNT));
}

#[test]
fn an_empty_batch_changes_nothing() {
    let (mut ledger, ledger_id, mut staking, alice) = prepare_race_condition();
    ledger.deposit_near(&alice, DEPOSIT_AMOUNT).unwrap();
    let report = stake_batch(&mut ledger, &ledger_id, &mut staking, &alice, &vec![]);
    assert_eq!(report, vec![]);
    assert_eq!(ledger.view_near_deposit(&alice), Ok(DEPOSIT_AMOUNT));
    assert_eq!(
        staking.view_stake(&alice, &id("test.near")),
        Err(ContractError::NoStake)
    );
}

#[test]
fn a_batch_validates_every_request_against_the_same_balance() {
    let (mut ledger, ledger_id, mut staking, alice) = prepare_race_condition();
    ledger.deposit_near(&alice, 10 * ONE_NEAR).unwrap();
    let report = stake_batch(
        &mut ledger,
        &ledger_id,
        &mut staking,
        &alice,
        &vec![
            stake_request("one.near", 6 * ONE_NEAR),
            stake_request("two.near", 11 * ONE_NEAR),
            stake_request("one.near", 3 * ONE_NEAR),
            stake_request("two.near", 2 * ONE_NEAR),
        ],
    );
    assert_eq!(
        report,
        vec![
            Ok(4 * ONE_NEAR),
            Err(ContractError::InsufficientFunds),
            Ok(ONE_NEAR),
            Err(ContractError::Underflow),
        ]
    );
    assert_eq!(ledger.view_near_deposit(&alice), Ok(ONE_NEAR));
    assert_eq!(staking.view_stake(&alice, &id("one.near")), Ok(9 * ONE_NEAR));
    assert_eq!(staking.view_stake(&alice, &id("two.near")), Ok(2 * ONE_NEAR));
}

#[test]
fn a_batch_by_an_unknown_account_is_refused_request_by_request() {
    let (mut ledger, ledger_id, mut staking, alice) = prepare_race_condition();
    let report = stake_batch(
        &mut ledger,
        &ledger_id,
        &mut staking,
        &alice,
        &vec![stake_request("test.near", 1), stake_request("test.near", 0)],
    );
    assert_eq!(
        report,
        vec![Err(ContractError::AccountNotFound), Err(ContractError::AccountNotFound)]
    );
    assert_eq!(staking.view_stake(&alice, &id("test.near")), Err(ContractError::NoStake));
}

#[test]
fn a_ledger_off_the_allowlist_gets_failed_calls_and_debits_nothing() {
    let deposit_id = id("deposit.test.near");
    let alice = id("alice.near");
    let mut ledger = ReentrancyCheck::new(id("staking.test.near"));
    let mut staking = Staking::new(id("someone-else.near"));
    ledger.deposit_near(&alice, DEPOSIT_AMOUNT).unwrap();
    let report = stake_batch(
        &mut ledger,
        &deposit_id,
        &mut staking,
        &alice,
        &vec![stake_request("test.near", DEPOSIT_AMOUNT)],
    );
    assert_eq!(report, vec![Err(ContractError::StakingFailure(PromiseError::Failed))]);
    assert_eq!(ledger.view_near_deposit(&alice), Ok(DEPOSIT_AMOUNT));
    assert_eq!(staking.view_stake(&alice, &id("test.near")), Err(ContractError::NoStake));
}

#[test]
fn stake_is_validated_and_touches_no_balance() {
    let (mut ledger, _, _, alice) = prepare_race_condition();
    assert_eq!(
        ledger.stake(&alice, id("test.near"), 1),
        Err(ContractError::AccountNotFound)
    );
    ledger.deposit_near(&alice, DEPOSIT_AMOUNT).unwrap();
    assert_eq!(
        ledger.stake(&alice, id("test.near"), DEPOSIT_AMOUNT + 1),
        Err(ContractError::InsufficientFunds)
    );
    assert!(ledger.stake(&alice, id("test.near"), DEPOSIT_AMOUNT).is_ok());
    assert!(ledger.stake(&alice, id("test.near"), DEPOSIT_AMOUNT).is_ok());
    assert!(ledger.stake(&alice, id("test.near"), 0).is_ok());
    assert_eq!(ledger.view_near_deposit(&alice), Ok(DEPOSIT_AMOUNT));
}

#[test]
fn stake_gas_is_three_tera_gas() {
    assert_eq!(TGAS, 1_000_000_000_000);
    assert_eq!(STAKE_GAS, 3_000_000_000_000);
}

#[test]
fn resolve_staking_surfaces_a_failed_call() {
    let (mut ledger, _, _, alice) = prepare_race_condition();
    ledger.deposit_near(&alice, DEPOSIT_AMOUNT).unwrap();
    assert_eq!(
        ledger.resolve_staking(Err(PromiseError::Failed), ONE_NEAR, &alice),
        Err(ContractError::StakingFailure(PromiseError::Failed))
    );
    assert_eq!(
        ledger.resolve_staking(Err(PromiseError::NotReady), ONE_NEAR, &alice),
        Err(ContractError::StakingFailure(PromiseError::NotReady))
    );
    assert_eq!(ledger.view_near_deposit(&alice), Ok(DEPOSIT_AMOUNT));
    assert_eq!(ledger.resolve_staking(Ok(()), ONE_NEAR, &alice), Ok(19 * ONE_NEAR));
    assert_eq!(
        ledger.resolve_staking(Ok(()), DEPOSIT_AMOUNT, &alice),
        Err(ContractError::Underflow)
    );
    assert_eq!(
        ledger.resolve_staking(Ok(()), 0, &id("nobody.near")),
        Err(ContractError::AccountNotFound)
    );
    assert_eq!(ledger.view_near_deposit(&alice), Ok(19 * ONE_NEAR));
}

#[test]
fn settle_rule_values() {
    assert_eq!(settle(Ok(()), Some(10), 4), Ok(6));
    assert_eq!(settle(Ok(()), Some(10), 10), Ok(0));
    assert_eq!(settle(Ok(()), Some(10), 11), Err(ContractError::Underflow));
    assert_eq!(settle(Ok(()), None, 0), Err(ContractError::AccountNotFound));
    assert_eq!(
        settle(Err(PromiseError::Failed), Some(10), 4),
        Err(ContractError::StakingFailure(PromiseError::Failed))
    );
    assert_eq!(call_result(Ok(7)), Ok(()));
    assert_eq!(call_result(Err(ContractError::AccessDenied)), Err(PromiseError::Failed));
    assert_eq!(call_result(Err(ContractError::Overflow)), Err(PromiseError::Failed));
}

#[test]
fn decrease_balance_debits_or_refuses() {
    let (mut ledger, _, _, alice) = prepare_race_condition();
    assert_eq!(ledger.decrease_balance(&alice, 0), Err(ContractError::AccountNotFound));
    ledger.deposit_near(&alice, 5 * ONE_NEAR).unwrap();
    assert_eq!(ledger.decrease_balance(&alice, 2 * ONE_NEAR), Ok(3 * ONE_NEAR));
    assert_eq!(
        ledger.decrease_balance(&alice, 3 * ONE_NEAR + 1),
        Err(ContractError::Underflow)
    );
    assert_eq!(ledger.view_near_deposit(&alice), Ok(3 * ONE_NEAR));
    assert_eq!(ledger.decrease_balance(&alice, 3 * ONE_NEAR), Ok(0));
    assert_eq!(ledger.view_near_deposit(&alice), Ok(0));
}

#[test]
fn deliver_runs_the_call_and_then_the_continuation() {
    let (mut ledger, ledger_id, mut staking, alice) = prepare_race_condition();
    ledger.deposit_near(&alice, 100 * ONE_NEAR).unwrap();
    let first = ledger.stake(&alice, id("validator.near"), 60 * ONE_NEAR).unwrap();
    let second = ledger.stake(&alice, id("validator.near"), 60 * ONE_NEAR).unwrap();
    let third = ledger.stake(&alice, id("validator.near"), 10 * ONE_NEAR).unwrap();

    assert_eq!(deliver(&mut ledger, &ledger_id, &mut staking, first), Ok(40 * ONE_NEAR));
    assert_eq!(ledger.view_near_deposit(&alice), Ok(40 * ONE_NEAR));
    assert_eq!(staking.view_stake(&alice, &id("validator.near")), Ok(60 * ONE_NEAR));

    // A call that was validated earlier is carried out whatever the balance
    // has become: the position grows and the debit fails.
    assert_eq!(
        deliver(&mut ledger, &ledger_id, &mut staking, second),
        Err(ContractError::Underflow)
    );
    assert_eq!(ledger.view_near_deposit(&alice), Ok(40 * ONE_NEAR));
    assert_eq!(staking.view_stake(&alice, &id("validator.near")), Ok(120 * ONE_NEAR));

    // Under another identity the staking call is refused and nothing moves.
    assert_eq!(
        deliver(&mut ledger, &alice, &mut staking, third),
        Err(ContractError::StakingFailure(PromiseError::Failed))
    );
    assert_eq!(ledger.view_near_deposit(&alice), Ok(40 * ONE_NEAR));
    assert_eq!(staking.view_stake(&alice, &id("validator.near")), Ok(120 * ONE_NEAR));
}

#[test]
fn failed_calls_counts_the_failures() {
    assert_eq!(failed_calls(&vec![]), 0);
    assert_eq!(succeeded(&vec![]), true);
    assert_eq!(failed_calls(&vec![Ok(1), Ok(0)]), 0);
    assert_eq!(
        failed_calls(&vec![
            Err(ContractError::InsufficientFunds),
            Ok(1),
            Err(ContractError::Underflow),
            Err(ContractError::StakingFailure(PromiseError::Failed)),
        ]),
        3
    );
}

#[test]
fn a_batch_stakes_more_than_was_ever_deposited() {
    let (mut ledger, ledger_id, mut staking, alice) = prepare_race_condition();
    ledger.deposit_near(&alice, 5 * ONE_NEAR).unwrap();
    let requests: Vec<StakeRequest> =
        (0..7).map(|_| stake_request("test.near", 5 * ONE_NEAR)).collect();
    let report = stake_batch(&mut ledger, &ledger_id, &mut staking, &alice, &requests);
    assert_eq!(report.len(), 7);
    assert_eq!(report[0], Ok(0));
    assert_eq!(failed_calls(&report), 6);
    assert_eq!(staking.view_stake(&alice, &id("test.near")), Ok(35 * ONE_NEAR));
    assert_eq!(ledger.view_near_deposit(&alice), Ok(0));
}
