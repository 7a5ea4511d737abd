//! Why an operation on the escrow or on its asset ledger was rejected.
use vstd::prelude::*;

verus! {

/// Every failure leaves the escrow record and all ledger balances exactly as
/// they were before the call.
#[derive(Clone, Copy, Debug, PartialEq, Eq, Structural)]
pub enum Error {
    /// An amount below zero was given.
    NegativeAmount,
    /// A deposit was attempted while an escrow is already funded.
    AlreadyFunded,
    /// A deposit named more claimants than an escrow may hold.
    TooManyClaimants,
    /// A deposit named the same claimant twice.
    DuplicateClaimant,
    /// A transfer asked for more than the payer allowed the spender.
    InsufficientAllowance,
    /// A transfer asked for more than the payer holds.
    InsufficientBalance,
    /// An approval would push an allowance past the largest amount.
    AllowanceOverflow,
    /// A credit would push a balance past the largest amount.
    BalanceOverflow,
    /// A claim was attempted while no escrow is funded.
    NotFunded,
    /// The claimant is not one of the escrow's claimants.
    NotEligible,
    /// The claim falls outside the escrow's time bound.
    TimeBoundViolation,
    /// The caller did not authorize the operation, or may not take part in it.
    Unauthorized,
    /// The payout could not be made on the escrow's asset ledger.
    TransferFailed,
}

/// `r` and `after` are what an operation produced from `before`, where
/// `outcome` is what the operation is specified to do: on success the new
/// state, on failure the error and the state left unchanged.
pub open spec fn applied<T>(
    before: T,
    after: T,
    r: Result<(), Error>,
    outcome: Result<T, Error>,
) -> bool {
    match outcome {
        Ok(s) => r is Ok && after == s,
        Err(e) => r == Err::<(), Error>(e) && after == before,
    }
}

} // verus!
