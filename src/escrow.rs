//! The escrow state machine: at most one funded record, created by `deposit`
//! and cleared by the one `claim` that pays it out.
use vstd::prelude::*;

use crate::error::{applied, Error};
use crate::ledger::{max_amount, LedgerView, TokenLedger};
use crate::time_bound::TimeBound;

verus! {

/// The most claimants one escrow may name.
pub const MAX_CLAIMANTS: usize = 10;

/// A principal invoking an operation, with the host's verdict on whether it
/// authorized the call.
#[derive(Clone, Copy, Debug, PartialEq, Eq, Structural)]
pub struct Signer {
    pub address: u64,
    pub authorized: bool,
}

/// The funded escrow: how much of which token is held, who may claim it, and
/// when.
#[derive(Debug)]
pub struct ClaimableBalance {
    pub token: u64,
    pub amount: i128,
    pub claimants: Vec<u64>,
    pub time_bound: TimeBound,
}

pub struct RecordView {
    pub token: u64,
    pub amount: int,
    pub claimants: Seq<u64>,
    pub time_bound: TimeBound,
}

impl View for ClaimableBalance {
    type V = RecordView;

    open spec fn view(&self) -> RecordView {
        RecordView {
            token: self.token,
            amount: self.amount as int,
            claimants: self.claimants@,
            time_bound: self.time_bound,
        }
    }
}

/// The escrow's state: its own account on the ledger, its record if funded,
/// and whether it is initialized.
pub struct EscrowView {
    pub address: u64,
    pub record: Option<RecordView>,
    pub initialized: bool,
}

impl EscrowView {
    pub open spec fn is_funded(self) -> bool {
        self.record is Some
    }

    pub open spec fn wf(self) -> bool {
        &&& self.initialized == self.record is Some
        &&& self.record matches Some(r) ==> {
            &&& 0 <= r.amount <= max_amount()
            &&& r.claimants.len() <= MAX_CLAIMANTS
            &&& r.claimants.no_duplicates()
        }
    }

    /// The escrow's account on `l` holds exactly the escrowed amount when
    /// funded, and nothing otherwise.
    pub open spec fn conserved(self, l: LedgerView) -> bool {
        match self.record {
            Some(r) => r.token == l.id && l.balance(self.address) == r.amount,
            None => l.balance(self.address) == 0,
        }
    }

    pub open spec fn deposit_outcome(
        self,
        l: LedgerView,
        depositor: Signer,
        amount: int,
        claimants: Seq<u64>,
        time_bound: TimeBound,
    ) -> Result<(EscrowView, LedgerView), Error> {
        if !depositor.authorized || depositor.address == self.address {
            Err(Error::Unauthorized)
        } else if amount < 0 {
            Err(Error::NegativeAmount)
        } else if self.is_funded() {
            Err(Error::AlreadyFunded)
        } else if claimants.len() > MAX_CLAIMANTS {
            Err(Error::TooManyClaimants)
        } else if !claimants.no_duplicates() {
            Err(Error::DuplicateClaimant)
        } else {
            match l.transfer_from_outcome(self.address, depositor.address, self.address, amount) {
                Ok(l2) => Ok(
                    (
                        EscrowView {
                            record: Some(RecordView { token: l.id, amount, claimants, time_bound }),
                            initialized: true,
                            ..self
                        },
                        l2,
                    ),
                ),
                Err(e) => Err(e),
            }
        }
    }

    pub open spec fn claim_outcome(self, l: LedgerView, claimant: Signer, now: u64) -> Result<
        (EscrowView, LedgerView),
        Error,
    > {
        match self.record {
            None => Err(Error::NotFunded),
            Some(r) => if !claimant.authorized {
                Err(Error::Unauthorized)
            } else if !r.claimants.contains(claimant.address) {
                Err(Error::NotEligible)
            } else if !r.time_bound.allows(now) {
                Err(Error::TimeBoundViolation)
            } else if claimant.address == self.address || l.id != r.token {
                Err(Error::TransferFailed)
            } else {
                match l.transfer_outcome(self.address, claimant.address, r.amount) {
                    Ok(l2) => Ok((EscrowView { record: None, initialized: false, ..self }, l2)),
                    Err(_) => Err(Error::TransferFailed),
                }
            },
        }
    }
}

/// One escrow instance, with its own account `address` on the asset ledger.
pub struct ClaimableBalanceContract {
    address: u64,
    balance: Option<ClaimableBalance>,
    initialized: bool,
}

impl View for ClaimableBalanceContract {
    type V = EscrowView;

    closed spec fn view(&self) -> EscrowView {
        EscrowView {
            address: self.address,
            record: match self.balance {
                Some(b) => Some(b@),
                None => None,
            },
            initialized: self.initialized,
        }
    }
}

/// Whether some value occurs twice in `v`.
fn has_duplicates(v: &Vec<u64>) -> (r: bool)
    ensures
        r == !v@.no_duplicates(),
{
    let n = v.len();
    let mut i: usize = 0;
    while i < n
        invariant
            n == v@.len(),
            i <= n,
            forall|a: int, b: int| 0 <= a < i && a < b < n ==> v@[a] != v@[b],
        decreases n - i,
    {
        let mut j: usize = i + 1;
        while j < n
            invariant
                n == v@.len(),
                i < n,
                i + 1 <= j <= n,
                forall|b: int| i < b < j ==> v@[i as int] != v@[b],
            decreases n - j,
        {
            if v[i] == v[j] {
                return true;
            }
            j = j + 1;
        }
        i = i + 1;
    }
    false
}

/// Whether `x` occurs in `v`.
fn contains(v: &Vec<u64>, x: u64) -> (r: bool)
    ensures
        r == v@.contains(x),
{
    let mut i: usize = 0;
    while i < v.len()
        invariant
            i <= v@.len(),
            forall|a: int| 0 <= a < i ==> v@[a] != x,
        decreases v@.len() - i,
    {
        if v[i] == x {
            return true;
        }
        i = i + 1;
    }
    false
}

impl ClaimableBalanceContract {
    pub open spec fn wf(&self) -> bool {
        self@.wf()
    }

    /// An unfunded escrow whose account on the ledger is `address`.
    pub fn new(address: u64) -> (r: ClaimableBalanceContract)
        ensures
            r.wf(),
            r@ == (EscrowView { address, record: None, initialized: false }),
    {
        ClaimableBalanceContract { address, balance: None, initialized: false }
    }

    pub fn address(&self) -> (r: u64)
        ensures
            r == self@.address,
    {
        self.address
    }

    pub fn is_initialized(&self) -> (r: bool)
        ensures
            r == self@.initialized,
    {
        self.initialized
    }

    /// The funded record, if any.
    pub fn balance(&self) -> (r: Option<&ClaimableBalance>)
        ensures
            match r {
                Some(b) => self@.record == Some(b@),
                None => self@.record is None,
            },
    {
        match &self.balance {
            Some(b) => Some(b),
            None => None,
        }
    }

    /// Funds the escrow: pulls `amount` from the depositor's account into the
    /// escrow's own through the allowance the depositor gave the escrow, and
    /// records the claimants and the time bound. The escrow's own account
    /// cannot act as depositor: such a deposit fails with `Unauthorized`, as
    /// funds moved from the escrow's account into itself would not be held
    /// apart from it. On any failure nothing changes, on the ledger or here.
    pub fn deposit(
        &mut self,
        token: &mut TokenLedger,
        depositor: Signer,
        amount: i128,
        claimants: Vec<u64>,
        time_bound: TimeBound,
    ) -> (r: Result<(), Error>)
        requires
            old(self).wf(),
            old(token).wf(),
        ensures
            final(self).wf(),
            final(token).wf(),
            applied(
                (old(self)@, old(token)@),
                (final(self)@, final(token)@),
                r,
                old(self)@.deposit_outcome(
                    old(token)@,
                    depositor,
                    amount as int,
                    claimants@,
                    time_bound,
                ),
            ),
    {
        if !depositor.authorized || depositor.address == self.address {
            return Err(Error::Unauthorized);
        }
        if amount < 0 {
            return Err(Error::NegativeAmount);
        }
        if self.balance.is_some() {
            return Err(Error::AlreadyFunded);
        }
        if claimants.len() > MAX_CLAIMANTS {
            return Err(Error::TooManyClaimants);
        }
        if has_duplicates(&claimants) {
            return Err(Error::DuplicateClaimant);
        }
        let token_id = token.id();
        match token.transfer_from(self.address, depositor.address, self.address, amount) {
            Ok(()) => {
                self.balance = Some(ClaimableBalance { token: token_id, amount, claimants, time_bound });
                self.initialized = true;
                Ok(())
            },
            Err(e) => Err(e),
        }
    }

    /// Pays the whole escrowed amount out to `claimant` and clears the
    /// record, provided the claimant authorized the call, is one of the
    /// claimants, and `now` satisfies the time bound. The escrow's own
    /// account cannot be paid out to. On any failure
    /// nothing changes, on the ledger or here.
    pub fn claim(&mut self, token: &mut TokenLedger, claimant: Signer, now: u64) -> (r: Result<
        (),
        Error,
    >)
        requires
            old(self).wf(),
            old(token).wf(),
        ensures
            final(self).wf(),
            final(token).wf(),
            applied(
                (old(self)@, old(token)@),
                (final(self)@, final(token)@),
                r,
                old(self)@.claim_outcome(old(token)@, claimant, now),
            ),
    {
        let (record_token, amount) = match &self.balance {
            None => {
                return Err(Error::NotFunded);
            },
            Some(b) => {
                if !claimant.authorized {
                    return Err(Error::Unauthorized);
                }
                if !contains(&b.claimants, claimant.address) {
                    return Err(Error::NotEligible);
                }
                if !b.time_bound.is_satisfied(now) {
                    return Err(Error::TimeBoundViolation);
                }
                (b.token, b.amount)
            },
        };
        if claimant.address == self.address || token.id() != record_token {
            return Err(Error::TransferFailed);
        }
        match token.transfer(self.address, claimant.address, amount) {
            Ok(()) => {
                self.balance = None;
                self.initialized = false;
                Ok(())
            },
            Err(_) => Err(Error::TransferFailed),
        }
    }
}

} // verus!
