//! What holds of every deployment, over any operations made on it.
use vstd::prelude::*;

use crate::deployment::{DeploymentView, Step};
use crate::error::Error;
use crate::escrow::{EscrowView, RecordView, Signer};
use crate::ledger::{max_amount, LedgerView};
use crate::time_bound::{TimeBound, TimeBoundKind};

verus! {

/// Every operation, whether it succeeds or fails, keeps a well-formed
/// deployment well formed; in particular the escrow's account keeps holding
/// exactly the escrowed amount when funded, and nothing otherwise.
pub proof fn step_preserves_conservation(d: DeploymentView, s: Step)
    requires
        d.wf(),
    ensures
        d.after(s).wf(),
        d.after(s).escrow.conserved(d.after(s).ledger),
{
}

/// For every sequence of operations, the escrow's account holds exactly the
/// escrowed amount when funded, and nothing otherwise.
pub proof fn conservation(d: DeploymentView, steps: Seq<Step>)
    requires
        d.wf(),
    ensures
        d.run(steps).wf(),
        match d.run(steps).escrow.record {
            Some(r) => d.run(steps).ledger.balance(d.escrow.address) == r.amount,
            None => d.run(steps).ledger.balance(d.escrow.address) == 0,
        },
    decreases steps.len(),
{
    if steps.len() > 0 {
        step_preserves_conservation(d, steps[0]);
        conservation(d.after(steps[0]), steps.drop_first());
    }
}

/// The clock never goes back, over any sequence of operations.
pub proof fn clock_monotonic(d: DeploymentView, steps: Seq<Step>)
    ensures
        d.run(steps).now >= d.now,
    decreases steps.len(),
{
    if steps.len() > 0 {
        clock_monotonic(d.after(steps[0]), steps.drop_first());
    }
}

/// A deposit that succeeds escrows no more than the depositor had allowed
/// the escrow, spends exactly that much of the allowance, and takes it from
/// the depositor's balance.
pub proof fn deposit_within_allowance(
    d: DeploymentView,
    depositor: Signer,
    amount: int,
    claimants: Seq<u64>,
    time_bound: TimeBound,
)
    requires
        d.wf(),
        d.step(Step::Deposit { depositor, amount, claimants, time_bound }) is Ok,
    ensures
        ({
            let e = d.escrow.address;
            let a = depositor.address;
            let d2 = d.after(Step::Deposit { depositor, amount, claimants, time_bound });
            &&& d2.escrow.record == Some(
                RecordView { token: d.ledger.id, amount, claimants, time_bound },
            )
            &&& 0 <= amount <= d.ledger.allowance(a, e)
            &&& d2.ledger.allowance(a, e) == d.ledger.allowance(a, e) - amount
            &&& d2.ledger.balance(a) == d.ledger.balance(a) - amount
            &&& d2.ledger.balance(e) == amount
        }),
{
}

/// No operation but a deposit funds an unfunded escrow, and none changes
/// the escrow's account address.
proof fn only_deposit_funds(d: DeploymentView, steps: Seq<Step>)
    requires
        !d.escrow.is_funded(),
        forall|i: int| 0 <= i < steps.len() ==> !(#[trigger] steps[i] is Deposit),
    ensures
        !d.run(steps).escrow.is_funded(),
    decreases steps.len(),
{
    if steps.len() > 0 {
        assert(!(steps[0] is Deposit));
        let rest = steps.drop_first();
        assert forall|i: int| 0 <= i < rest.len() implies !(#[trigger] rest[i] is Deposit) by {
            assert(rest[i] == steps[i + 1]);
        }
        only_deposit_funds(d.after(steps[0]), rest);
    }
}

/// Once a claim succeeds, every later claim fails with `NotFunded` until the
/// next deposit, whatever else happens in between.
pub proof fn single_claim(d: DeploymentView, first: Signer, between: Seq<Step>, second: Signer)
    requires
        d.wf(),
        d.step(Step::Claim { claimant: first }) is Ok,
        forall|i: int| 0 <= i < between.len() ==> !(#[trigger] between[i] is Deposit),
    ensures
        d.after(Step::Claim { claimant: first }).run(between).step(Step::Claim { claimant: second })
            == Err::<DeploymentView, Error>(Error::NotFunded),
{
    only_deposit_funds(d.after(Step::Claim { claimant: first }), between);
}

/// Both ends of a time bound are inclusive: `Before(t)` admits `t` and not
/// `t + 1`; `After(t)` admits `t` and not `t - 1`.
pub proof fn time_bound_boundary(t: u64)
    ensures
        (TimeBound { kind: TimeBoundKind::Before, timestamp: t }).allows(t),
        t < u64::MAX ==> !(TimeBound { kind: TimeBoundKind::Before, timestamp: t }).allows(
            (t + 1) as u64,
        ),
        (TimeBound { kind: TimeBoundKind::After, timestamp: t }).allows(t),
        t > 0 ==> !(TimeBound { kind: TimeBoundKind::After, timestamp: t }).allows(
            (t - 1) as u64,
        ),
{
}

/// An authorized, eligible claim against a funded escrow is never turned
/// away for its time exactly when the time bound admits `now`, inclusive at
/// both ends; otherwise it fails with `TimeBoundViolation`.
pub proof fn claim_time_bound(e: EscrowView, l: LedgerView, claimant: Signer, now: u64)
    requires
        e.record is Some,
        claimant.authorized,
        e.record->Some_0.claimants.contains(claimant.address),
    ensures
        (e.claim_outcome(l, claimant, now) == Err::<(EscrowView, LedgerView), Error>(
            Error::TimeBoundViolation,
        )) <==> !e.record->Some_0.time_bound.allows(now),
{
}

/// An authorized claimant named in the record, claiming at a time the bound
/// admits (inclusive at both ends), is paid the whole escrowed amount and the
/// record is cleared, unless the payout cannot be made: the claimant is the
/// escrow's own account, or its balance would exceed the largest amount.
pub proof fn claim_within_bound_succeeds(d: DeploymentView, claimant: Signer)
    requires
        d.wf(),
        d.escrow.record is Some,
        claimant.authorized,
        d.escrow.record->Some_0.claimants.contains(claimant.address),
        d.escrow.record->Some_0.time_bound.allows(d.now),
        claimant.address != d.escrow.address,
        d.ledger.balance(claimant.address) + d.escrow.record->Some_0.amount <= max_amount(),
    ensures
        ({
            let amount = d.escrow.record->Some_0.amount;
            let d2 = d.after(Step::Claim { claimant });
            &&& d.step(Step::Claim { claimant }) is Ok
            &&& d2.escrow.record is None
            &&& !d2.escrow.initialized
            &&& d2.ledger.balance(d.escrow.address) == 0
            &&& d2.ledger.balance(claimant.address) == d.ledger.balance(claimant.address)
                + amount
        }),
{
}

/// A claim by a principal that is not one of the claimants fails with
/// `NotEligible`, whatever the time bound and the time.
pub proof fn ineligible_claim(e: EscrowView, l: LedgerView, claimant: Signer, now: u64)
    requires
        e.record is Some,
        claimant.authorized,
        !e.record->Some_0.claimants.contains(claimant.address),
    ensures
        e.claim_outcome(l, claimant, now) == Err::<(EscrowView, LedgerView), Error>(
            Error::NotEligible,
        ),
{
}

/// Approving `a` twice from a zero allowance: the first approval succeeds,
/// and the second succeeds exactly when `a + a` fits; when it does not, the
/// second fails with `AllowanceOverflow` and the allowance stays `a`.
pub proof fn approve_twice(d: DeploymentView, owner: u64, spender: u64, a: int)
    requires
        d.wf(),
        d.ledger.allowance(owner, spender) == 0,
        0 <= a <= max_amount(),
    ensures
        ({
            let s = Step::Approve { owner, spender, amount: a };
            &&& d.step(s) is Ok
            &&& d.after(s).ledger.allowance(owner, spender) == a
            &&& (d.after(s).step(s) is Ok <==> a + a <= max_amount())
            &&& (a + a > max_amount() ==> d.after(s).step(s) == Err::<DeploymentView, Error>(
                Error::AllowanceOverflow,
            ))
            &&& d.after(s).after(s).ledger.allowance(owner, spender) == if a + a <= max_amount() {
                a + a
            } else {
                a
            }
        }),
{
}

/// A deposit of more than the depositor allowed the escrow always fails and
/// leaves every balance as it was.
pub proof fn deposit_above_allowance(
    d: DeploymentView,
    depositor: Signer,
    amount: int,
    claimants: Seq<u64>,
    time_bound: TimeBound,
)
    requires
        d.wf(),
        amount > d.ledger.allowance(depositor.address, d.escrow.address),
    ensures
        ({
            let s = Step::Deposit { depositor, amount, claimants, time_bound };
            &&& d.step(s) is Err
            &&& d.after(s).ledger.balances == d.ledger.balances
        }),
{
}

} // verus!
