//! One batch of stake requests, as a host runs it against a deposit ledger and
//! the staking service behind it.
//!
//! The host keeps two queues. It first runs the synchronous part of every
//! request: each is validated against the balance as it stands, none touches
//! it, and what each leaves behind goes to the deferred queue. Only when
//! that is done is the deferred queue drained: the dispatched staking calls
//! are run and their continuations delivered, in the order of the requests
//! and each exactly once. A request that fails, at either point, does not
//! undo what the others have done.

use std::collections::VecDeque;
use vstd::prelude::*;
use crate::account::AccountId;
use crate::actions::StakeCall;
use crate::balances::balance_of;
use crate::deposit::{spec_settle, ReentrancyCheck};
use crate::error::{ContractError, PromiseError};
use crate::ledger::{recorded, spec_check_funds};
use crate::positions::{position_of, PairView};
use crate::staking::{spec_add_stake, stored, Staking};

verus! {

/// One stake request of a batch.
#[derive(Debug, PartialEq)]
pub struct StakeRequest {
    pub validator: AccountId,
    pub amount: u128,
}

/// A stake request as contracts speak of it: the validator's name and the
/// amount.
pub type RequestView = (Seq<char>, u128);

/// The requests of a batch as contracts speak of them.
pub open spec fn request_views(requests: Seq<StakeRequest>) -> Seq<RequestView> {
    Seq::new(requests.len(), |i: int| (requests[i].validator@, requests[i].amount))
}

/// The two tables, and the report with one entry per request handled so far:
/// the balance that its continuation left, or why the request failed.
pub struct BatchOutcome {
    pub balances: Map<Seq<char>, u128>,
    pub positions: Map<PairView, u128>,
    pub report: Seq<Result<u128, ContractError>>,
}

/// What a continuation is handed for the outcome of a staking call.
pub open spec fn spec_call_result(remote: Result<u128, ContractError>) -> Result<
    (),
    PromiseError,
> {
    match remote {
        Ok(_) => Ok(()),
        Err(_) => Err(PromiseError::Failed),
    }
}

/// What a delivery leaves: the two tables, and what the continuation
/// returned.
pub struct Delivered {
    pub balances: Map<Seq<char>, u128>,
    pub positions: Map<PairView, u128>,
    pub settled: Result<u128, ContractError>,
}

/// Runs one dispatched staking call, then its continuation. The staking call
/// credits the position whatever the balance has become; the continuation
/// debits the balance as it then stands.
pub open spec fn spec_deliver(
    balances: Map<Seq<char>, u128>,
    positions: Map<PairView, u128>,
    allowed: bool,
    beneficiary: Seq<char>,
    validator: Seq<char>,
    amount: u128,
) -> Delivered {
    let pair = (beneficiary, validator);
    let remote = spec_add_stake(allowed, position_of(positions, pair), amount);
    let settled = spec_settle(spec_call_result(remote), balance_of(balances, beneficiary), amount);
    Delivered {
        balances: recorded(balances, beneficiary, settled),
        positions: stored(positions, pair, remote),
        settled,
    }
}

/// The deferred part of a batch: the requests in order, each either refused as
/// its validation against `checked` (the balances when the batch began) says,
/// or delivered.
pub open spec fn spec_drain(
    checked: Map<Seq<char>, u128>,
    start: BatchOutcome,
    allowed: bool,
    caller: Seq<char>,
    requests: Seq<RequestView>,
) -> BatchOutcome
    decreases requests.len(),
{
    if requests.len() == 0 {
        start
    } else {
        let before = spec_drain(checked, start, allowed, caller, requests.drop_last());
        let request = requests.last();
        match spec_check_funds(balance_of(checked, caller), request.1) {
            Err(refusal) => BatchOutcome { report: before.report.push(Err(refusal)), ..before },
            Ok(_) => {
                let delivered = spec_deliver(
                    before.balances,
                    before.positions,
                    allowed,
                    caller,
                    request.0,
                    request.1,
                );
                BatchOutcome {
                    balances: delivered.balances,
                    positions: delivered.positions,
                    report: before.report.push(delivered.settled),
                }
            },
        }
    }
}

/// A whole batch by `caller`: `allowed` says whether the staking service has
/// the ledger on its allowlist.
pub open spec fn spec_stake_batch(
    balances: Map<Seq<char>, u128>,
    positions: Map<PairView, u128>,
    allowed: bool,
    caller: Seq<char>,
    requests: Seq<RequestView>,
) -> BatchOutcome {
    spec_drain(
        balances,
        BatchOutcome { balances, positions, report: Seq::empty() },
        allowed,
        caller,
        requests,
    )
}

/// How many requests of a report failed.
pub open spec fn spec_failed_calls(report: Seq<Result<u128, ContractError>>) -> nat
    decreases report.len(),
{
    if report.len() == 0 {
        0
    } else {
        spec_failed_calls(report.drop_last()) + if report.last() is Err {
            1nat
        } else {
            0nat
        }
    }
}

/// Counts the requests of a report that failed. The batch as a whole has
/// succeeded where there is none.
pub fn failed_calls(report: &Vec<Result<u128, ContractError>>) -> (count: usize)
    ensures
        count == spec_failed_calls(report@),
{
    let mut count: usize = 0;
    let mut i: usize = 0;
    while i < report.len()
        invariant
            i <= report@.len(),
            count <= i,
            count == spec_failed_calls(report@.take(i as int)),
        decreases report@.len() - i,
    {
        proof {
            assert(report@.take(i + 1).drop_last() == report@.take(i as int));
        }
        if report[i].is_err() {
            count += 1;
        }
        i += 1;
    }
    proof {
        assert(report@.take(i as int) == report@);
    }
    count
}

/// Whether the batch as a whole has succeeded: no request failed, in its
/// synchronous part or in its continuation.
pub fn succeeded(report: &Vec<Result<u128, ContractError>>) -> (whole: bool)
    ensures
        whole == (spec_failed_calls(report@) == 0),
{
    failed_calls(report) == 0
}

/// Turns the outcome of a staking call into what its continuation is handed.
pub fn call_result(remote: Result<u128, ContractError>) -> (handed: Result<(), PromiseError>)
    ensures
        handed == spec_call_result(remote),
{
    match remote {
        Ok(_) => Ok(()),
        Err(_) => Err(PromiseError::Failed),
    }
}

/// Delivers one dispatched call: runs it against the staking service under
/// the ledger's identity, then hands its outcome to the ledger's
/// continuation. Returns what the continuation returned. The call is used
/// up, so that no continuation is delivered twice.
pub fn deliver(
    ledger: &mut ReentrancyCheck,
    ledger_id: &AccountId,
    staking: &mut Staking,
    call: StakeCall,
) -> (settled: Result<u128, ContractError>)
    ensures
        (Delivered { balances: final(ledger)@, positions: final(staking)@, settled })
            == spec_deliver(
            old(ledger)@,
            old(staking)@,
            old(staking).allowed().contains(ledger_id@),
            call.beneficiary@,
            call.validator@,
            call.amount,
        ),
        final(ledger).staking_target() == old(ledger).staking_target(),
        final(staking).allowed() == old(staking).allowed(),
{
    let StakeCall { beneficiary, validator, amount, .. } = call;
    let remote = staking.stake(ledger_id, beneficiary.clone(), validator, amount);
    ledger.resolve_staking(call_result(remote), amount, &beneficiary)
}

/// What the synchronous part of a request leaves in the deferred queue: the
/// call to run, or the refusal to report.
spec fn queued_for(
    verdict: Result<StakeCall, ContractError>,
    checked: Map<Seq<char>, u128>,
    caller: Seq<char>,
    request: RequestView,
) -> bool {
    match verdict {
        Ok(call) => {
            &&& spec_check_funds(balance_of(checked, caller), request.1) is Ok
            &&& call.beneficiary@ == caller
            &&& call.validator@ == request.0
            &&& call.amount == request.1
        },
        Err(refusal) => spec_check_funds(balance_of(checked, caller), request.1) == Err::<
            u128,
            ContractError,
        >(refusal),
    }
}

/// Runs a batch of stake requests by `caller`. `ledger_id` is the identity
/// under which the ledger calls the staking service, and `staking` is the
/// service that the ledger names as its target.
pub fn stake_batch(
    ledger: &mut ReentrancyCheck,
    ledger_id: &AccountId,
    staking: &mut Staking,
    caller: &AccountId,
    requests: &Vec<StakeRequest>,
) -> (report: Vec<Result<u128, ContractError>>)
    ensures
        (BatchOutcome {
            balances: final(ledger)@,
            positions: final(staking)@,
            report: report@,
        }) == spec_stake_batch(
            old(ledger)@,
            old(staking)@,
            old(staking).allowed().contains(ledger_id@),
            caller@,
            request_views(requests@),
        ),
        final(ledger).staking_target() == old(ledger).staking_target(),
        final(staking).allowed() == old(staking).allowed(),
{
    let ghost checked = ledger@;
    let ghost allowed = staking.allowed().contains(ledger_id@);
    let ghost views = request_views(requests@);
    let ghost start = BatchOutcome {
        balances: ledger@,
        positions: staking@,
        report: Seq::empty(),
    };

    // The immediate queue: the synchronous part of every request runs before
    // any dispatched call does.
    let mut deferred: VecDeque<Result<StakeCall, ContractError>> = VecDeque::new();
    let mut i: usize = 0;
    while i < requests.len()
        invariant
            i <= requests@.len(),
            deferred@.len() == i,
            ledger@ == checked,
            views == request_views(requests@),
            forall|k: int|
                0 <= k < i ==> queued_for(#[trigger] deferred@[k], checked, caller@, views[k]),
        decreases requests@.len() - i,
    {
        let request = &requests[i];
        let verdict = ledger.stake(caller, request.validator.clone(), request.amount);
        deferred.push_back(verdict);
        i += 1;
    }

    // The deferred queue, drained from the front: each dispatched call, then
    // its continuation.
    let ghost queued = deferred@;
    let ghost mut done: int = 0;
    let mut report: Vec<Result<u128, ContractError>> = Vec::new();
    while deferred.len() > 0
        invariant
            0 <= done <= queued.len(),
            queued.len() == views.len(),
            deferred@ == queued.subrange(done, queued.len() as int),
            allowed == staking.allowed().contains(ledger_id@),
            staking.allowed() == old(staking).allowed(),
            ledger.staking_target() == old(ledger).staking_target(),
            forall|k: int|
                0 <= k < queued.len() ==> queued_for(
                    #[trigger] queued[k],
                    checked,
                    caller@,
                    views[k],
                ),
            (BatchOutcome { balances: ledger@, positions: staking@, report: report@ })
                == spec_drain(checked, start, allowed, caller@, views.take(done)),
        decreases deferred@.len(),
    {
        proof {
            assert(deferred@[0] == queued[done]);
            assert(views.take(done + 1).drop_last() == views.take(done));
            assert(views.take(done + 1).last() == views[done]);
            assert(queued.subrange(done, queued.len() as int).subrange(
                1,
                queued.len() - done,
            ) == queued.subrange(done + 1, queued.len() as int));
        }
        match deferred.pop_front() {
            Some(Ok(call)) => {
                let settled = deliver(ledger, ledger_id, staking, call);
                report.push(settled);
            },
            Some(Err(refusal)) => {
                report.push(Err(refusal));
            },
            None => {},
        }
        proof {
            done = done + 1;
        }
    }
    proof {
        assert(views.take(done) == views);
    }
    report
}

} // verus!
