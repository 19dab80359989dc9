//! What holds of the services across several calls.

use vstd::prelude::*;
use crate::balances::balance_of;
use crate::batch::{spec_drain, spec_failed_calls, spec_stake_batch, RequestView};
use crate::error::ContractError;
use crate::ledger::{recorded, spec_credit, spec_withdraw};
use crate::logical::{after_transfer, spec_transfer};
use crate::positions::{position_of, PairView};
use crate::staking::{spec_add_stake, spec_release_stake, stored};
use crate::units::ONE_NEAR;

verus! {

/// The balance of an account, counting a missing record as zero.
pub open spec fn held(table: Map<Seq<char>, u128>, who: Seq<char>) -> int {
    match balance_of(table, who) {
        Some(balance) => balance as int,
        None => 0,
    }
}

/// The table after `who` deposits `amount`.
pub open spec fn after_deposit(table: Map<Seq<char>, u128>, who: Seq<char>, amount: u128) -> Map<
    Seq<char>,
    u128,
> {
    recorded(table, who, spec_credit(balance_of(table, who), amount))
}

/// Two deposits by one account add up: where both reach the minimum and the
/// sum fits, the account then holds what it held before plus both amounts,
/// and no other record has changed.
pub proof fn lemma_deposits_accumulate(
    table: Map<Seq<char>, u128>,
    who: Seq<char>,
    first: u128,
    second: u128,
)
    requires
        first >= ONE_NEAR,
        second >= ONE_NEAR,
        held(table, who) + first + second <= u128::MAX,
    ensures
        balance_of(after_deposit(after_deposit(table, who, first), who, second), who) == Some(
            (held(table, who) + first + second) as u128,
        ),
        forall|other: Seq<char>|
            other != who ==> balance_of(
                after_deposit(after_deposit(table, who, first), who, second),
                other,
            ) == balance_of(table, other),
{
}

/// A deposit that is refused, for being too small or for overflowing the
/// balance, changes nothing.
pub proof fn lemma_refused_deposit_changes_nothing(
    table: Map<Seq<char>, u128>,
    who: Seq<char>,
    amount: u128,
)
    requires
        amount < ONE_NEAR || held(table, who) + amount > u128::MAX,
    ensures
        spec_credit(balance_of(table, who), amount) is Err,
        after_deposit(table, who, amount) == table,
{
}

/// Withdrawing more than the balance is refused for want of funds, and the
/// table stays as it was.
pub proof fn lemma_overdraw_refused(table: Map<Seq<char>, u128>, who: Seq<char>, amount: u128)
    requires
        table.dom().contains(who),
        amount > table[who],
    ensures
        spec_withdraw(balance_of(table, who), amount) == Err::<u128, ContractError>(
            ContractError::InsufficientFunds,
        ),
        recorded(table, who, spec_withdraw(balance_of(table, who), amount)) == table,
{
}

/// A stake by a caller off the allowlist is refused, whatever the pair and
/// the amount, and no position changes.
pub proof fn lemma_outsider_cannot_stake(
    positions: Map<PairView, u128>,
    pair: PairView,
    amount: u128,
)
    ensures
        spec_add_stake(false, position_of(positions, pair), amount) == Err::<u128, ContractError>(
            ContractError::AccessDenied,
        ),
        stored(positions, pair, spec_add_stake(false, position_of(positions, pair), amount))
            == positions,
{
}

/// One stake request that the balance covers: once its continuation has run,
/// the balance is down by the amount and the position up by it.
pub proof fn lemma_single_stake_settles(
    balances: Map<Seq<char>, u128>,
    positions: Map<PairView, u128>,
    caller: Seq<char>,
    validator: Seq<char>,
    amount: u128,
)
    requires
        balances.dom().contains(caller),
        amount <= balances[caller],
        !positions.dom().contains((caller, validator)),
    ensures
        ({
            let end = spec_stake_batch(balances, positions, true, caller, seq![(validator, amount)]);
            &&& end.report == seq![Ok::<u128, ContractError>((balances[caller] - amount) as u128)]
            &&& end.balances == balances.insert(caller, (balances[caller] - amount) as u128)
            &&& end.positions == positions.insert((caller, validator), amount)
        }),
{
    reveal_with_fuel(spec_drain, 2);
    let requests: Seq<RequestView> = seq![(validator, amount)];
    assert(requests.drop_last() =~= Seq::<RequestView>::empty());
    let end = spec_stake_batch(balances, positions, true, caller, requests);
    assert(end.report =~= seq![Ok::<u128, ContractError>((balances[caller] - amount) as u128)]);
}

/// The double spend. An account that holds exactly `amount` submits two stake
/// requests for `amount` in one batch. Both pass validation, because neither
/// has been debited when the other is checked; both staking calls credit the
/// position, which ends at twice the amount; the first continuation empties
/// the balance and the second fails on the debit.
pub proof fn lemma_double_stake_overdraws(
    balances: Map<Seq<char>, u128>,
    positions: Map<PairView, u128>,
    caller: Seq<char>,
    validator: Seq<char>,
    amount: u128,
)
    requires
        balances.dom().contains(caller),
        balances[caller] == amount,
        amount > 0,
        2 * amount <= u128::MAX,
        !positions.dom().contains((caller, validator)),
    ensures
        ({
            let end = spec_stake_batch(
                balances,
                positions,
                true,
                caller,
                seq![(validator, amount), (validator, amount)],
            );
            &&& end.report == seq![
                Ok::<u128, ContractError>(0),
                Err::<u128, ContractError>(ContractError::Underflow),
            ]
            &&& spec_failed_calls(end.report) == 1
            &&& end.balances == balances.insert(caller, 0)
            &&& end.positions == positions.insert((caller, validator), (2 * amount) as u128)
        }),
{
    reveal_with_fuel(spec_drain, 3);
    reveal_with_fuel(spec_failed_calls, 3);
    let requests: Seq<RequestView> = seq![(validator, amount), (validator, amount)];
    assert(requests.drop_last() =~= seq![(validator, amount)]);
    assert(requests.drop_last().drop_last() =~= Seq::<RequestView>::empty());
    let end = spec_stake_batch(balances, positions, true, caller, requests);
    assert(end.report =~= seq![
        Ok::<u128, ContractError>(0),
        Err::<u128, ContractError>(ContractError::Underflow),
    ]);
    assert(end.balances =~= balances.insert(caller, 0));
    assert(end.positions =~= positions.insert((caller, validator), (2 * amount) as u128));
    assert(end.report.drop_last() =~= seq![Ok::<u128, ContractError>(0)]);
    assert(end.report.drop_last().drop_last() =~= Seq::<Result<u128, ContractError>>::empty());
}

/// The position of a pair, counting a missing position as zero.
pub open spec fn staked(positions: Map<PairView, u128>, pair: PairView) -> int {
    match position_of(positions, pair) {
        Some(position) => position as int,
        None => 0,
    }
}

/// The sum of the amounts of a batch.
pub open spec fn total_requested(requests: Seq<RequestView>) -> int
    decreases requests.len(),
{
    if requests.len() == 0 {
        0
    } else {
        total_requested(requests.drop_last()) + requests.last().1
    }
}

/// A batch stakes all it asks for, whatever the balance. Where every request
/// of a batch names one validator and asks for no more than the balance at
/// the start, the position grows by the sum of all the amounts, while the
/// balance can lose no more than it held.
pub proof fn lemma_batch_stakes_every_validated_request(
    balances: Map<Seq<char>, u128>,
    positions: Map<PairView, u128>,
    caller: Seq<char>,
    validator: Seq<char>,
    requests: Seq<RequestView>,
)
    requires
        balances.dom().contains(caller),
        forall|i: int|
            0 <= i < requests.len() ==> (#[trigger] requests[i]).0 == validator && requests[i].1
                <= balances[caller],
        staked(positions, (caller, validator)) + total_requested(requests) <= u128::MAX,
    ensures
        ({
            let end = spec_stake_batch(balances, positions, true, caller, requests);
            &&& end.report.len() == requests.len()
            &&& staked(end.positions, (caller, validator)) == staked(
                positions,
                (caller, validator),
            ) + total_requested(requests)
            &&& end.balances.dom().contains(caller)
            &&& end.balances[caller] <= balances[caller]
        }),
    decreases requests.len(),
{
    if requests.len() > 0 {
        let earlier = requests.drop_last();
        assert forall|i: int| 0 <= i < earlier.len() implies (#[trigger] earlier[i]).0
            == validator && earlier[i].1 <= balances[caller] by {
            assert(earlier[i] == requests[i]);
        }
        lemma_batch_stakes_every_validated_request(balances, positions, caller, validator, earlier);
        assert(requests.last() == requests[requests.len() - 1]);
    }
}

/// A transfer between two accounts moves the amount and makes none: the two
/// balances add up to what they added up to before, and no other record
/// changes.
pub proof fn lemma_transfer_conserves(
    table: Map<Seq<char>, u128>,
    sender: Seq<char>,
    receiver: Seq<char>,
    amount: u128,
)
    requires
        sender != receiver,
        spec_transfer(balance_of(table, sender), balance_of(table, receiver), amount) is Ok,
    ensures
        held(after_transfer(table, sender, receiver, amount), sender) + held(
            after_transfer(table, sender, receiver, amount),
            receiver,
        ) == held(table, sender) + held(table, receiver),
        held(after_transfer(table, sender, receiver, amount), sender) == held(table, sender)
            - amount,
        forall|other: Seq<char>|
            other != sender && other != receiver ==> balance_of(
                after_transfer(table, sender, receiver, amount),
                other,
            ) == balance_of(table, other),
{
}

/// Why a transfer to oneself has to be turned away: carried out, it would
/// credit the account with the amount and debit nothing.
pub proof fn lemma_self_transfer_would_mint(
    table: Map<Seq<char>, u128>,
    who: Seq<char>,
    amount: u128,
)
    requires
        spec_transfer(balance_of(table, who), balance_of(table, who), amount) is Ok,
    ensures
        held(after_transfer(table, who, who, amount), who) == held(table, who) + amount,
{
}

/// A record is never deleted: whatever a rule decides, every account that had
/// a balance still has one.
pub proof fn lemma_balance_records_stay(
    table: Map<Seq<char>, u128>,
    who: Seq<char>,
    outcome: Result<u128, ContractError>,
)
    ensures
        table.dom().subset_of(recorded(table, who, outcome).dom()),
{
}

/// A position is never deleted: whatever a rule decides, every pair that had
/// a position still has one.
pub proof fn lemma_positions_stay(
    table: Map<PairView, u128>,
    pair: PairView,
    outcome: Result<u128, ContractError>,
)
    ensures
        table.dom().subset_of(stored(table, pair, outcome).dom()),
{
}

/// When a withdrawal of stake goes through, and how it fails. It goes through
/// exactly where the pair has a position that is not empty, the amount is
/// not zero and the position covers it. Otherwise it is refused with one of
/// three refusals and no position changes: a zero amount from an existing
/// position as an invalid amount; a missing position, or a positive amount
/// from an empty one, for want of a stake; a positive amount above a position
/// that is not empty, for want of funds.
pub proof fn lemma_withdrawal_refusals(positions: Map<PairView, u128>, pair: PairView, amount: u128)
    ensures
        spec_release_stake(position_of(positions, pair), amount) is Ok <==> {
            &&& positions.dom().contains(pair)
            &&& amount != 0
            &&& positions[pair] != 0
            &&& amount <= positions[pair]
        },
        spec_release_stake(position_of(positions, pair), amount) is Err ==> stored(
            positions,
            pair,
            spec_release_stake(position_of(positions, pair), amount),
        ) == positions,
        spec_release_stake(position_of(positions, pair), amount) == Err::<u128, ContractError>(
            ContractError::InvalidAmount,
        ) <==> positions.dom().contains(pair) && amount == 0,
        spec_release_stake(position_of(positions, pair), amount) == Err::<u128, ContractError>(
            ContractError::NoStake,
        ) <==> !positions.dom().contains(pair) || (amount != 0 && positions[pair] == 0),
        spec_release_stake(position_of(positions, pair), amount) == Err::<u128, ContractError>(
            ContractError::InsufficientFunds,
        ) <==> positions.dom().contains(pair) && positions[pair] != 0 && amount > positions[pair],
        spec_release_stake(position_of(positions, pair), amount) matches Err(refusal) ==> {
            ||| refusal == ContractError::InvalidAmount
            ||| refusal == ContractError::NoStake
            ||| refusal == ContractError::InsufficientFunds
        },
{
}

/// A position can be withdrawn in full: the withdrawal succeeds and leaves
/// the position present and empty.
pub proof fn lemma_full_withdrawal_empties_position(
    positions: Map<PairView, u128>,
    pair: PairView,
)
    requires
        positions.dom().contains(pair),
        positions[pair] > 0,
    ensures
        spec_release_stake(position_of(positions, pair), positions[pair]) == Ok::<
            u128,
            ContractError,
        >(0),
        position_of(
            stored(
                positions,
                pair,
                spec_release_stake(position_of(positions, pair), positions[pair]),
            ),
            pair,
        ) == Some(0u128),
{
}

} // verus!
