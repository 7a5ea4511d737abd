//! One escrow instance deployed beside its token ledger and a clock: the
//! whole system on which the escrow's guarantees are stated.
use vstd::prelude::*;

use crate::error::{applied, Error};
use crate::escrow::{ClaimableBalance, ClaimableBalanceContract, EscrowView, Signer};
use crate::ledger::{LedgerView, TokenLedger};
use crate::time_bound::TimeBound;

verus! {

/// One operation on a deployment.
pub enum Step {
    Mint { to: u64, amount: int },
    Approve { owner: u64, spender: u64, amount: int },
    Deposit { depositor: Signer, amount: int, claimants: Seq<u64>, time_bound: TimeBound },
    Claim { claimant: Signer },
    AdvanceTime { seconds: u64 },
}

pub struct DeploymentView {
    pub now: u64,
    pub ledger: LedgerView,
    pub escrow: EscrowView,
}

/// `a + b`, held at `u64::MAX`.
pub open spec fn saturating_add(a: u64, b: u64) -> u64 {
    if a + b > u64::MAX {
        u64::MAX
    } else {
        (a + b) as u64
    }
}

impl DeploymentView {
    /// Both parts are well formed, and the escrow's account holds exactly
    /// what its record says.
    pub open spec fn wf(self) -> bool {
        &&& self.ledger.wf()
        &&& self.escrow.wf()
        &&& self.escrow.conserved(self.ledger)
    }

    pub open spec fn with_ledger(self, l: LedgerView) -> DeploymentView {
        DeploymentView { ledger: l, ..self }
    }

    /// What `s` does, or why it is rejected. New units cannot be minted into
    /// the escrow's own account: only deposits fill it.
    pub open spec fn step(self, s: Step) -> Result<DeploymentView, Error> {
        match s {
            Step::Mint { to, amount } => if to == self.escrow.address {
                Err(Error::Unauthorized)
            } else {
                match self.ledger.mint_outcome(to, amount) {
                    Ok(l) => Ok(self.with_ledger(l)),
                    Err(e) => Err(e),
                }
            },
            Step::Approve { owner, spender, amount } => match self.ledger.approve_outcome(
                owner,
                spender,
                amount,
            ) {
                Ok(l) => Ok(self.with_ledger(l)),
                Err(e) => Err(e),
            },
            Step::Deposit { depositor, amount, claimants, time_bound } => match self.escrow.deposit_outcome(
                self.ledger,
                depositor,
                amount,
                claimants,
                time_bound,
            ) {
                Ok((e, l)) => Ok(DeploymentView { escrow: e, ledger: l, ..self }),
                Err(e) => Err(e),
            },
            Step::Claim { claimant } => match self.escrow.claim_outcome(
                self.ledger,
                claimant,
                self.now,
            ) {
                Ok((e, l)) => Ok(DeploymentView { escrow: e, ledger: l, ..self }),
                Err(e) => Err(e),
            },
            Step::AdvanceTime { seconds } => Ok(
                DeploymentView { now: saturating_add(self.now, seconds), ..self },
            ),
        }
    }

    /// The deployment after `s`, which is unchanged where `s` fails.
    pub open spec fn after(self, s: Step) -> DeploymentView {
        match self.step(s) {
            Ok(d) => d,
            Err(_) => self,
        }
    }

    /// The deployment after each of `steps` in turn.
    pub open spec fn run(self, steps: Seq<Step>) -> DeploymentView
        decreases steps.len(),
    {
        if steps.len() == 0 {
            self
        } else {
            self.after(steps[0]).run(steps.drop_first())
        }
    }
}

/// An escrow, its token's ledger, and the clock it is claimed against.
pub struct Deployment {
    now: u64,
    token: TokenLedger,
    contract: ClaimableBalanceContract,
}

impl View for Deployment {
    type V = DeploymentView;

    closed spec fn view(&self) -> DeploymentView {
        DeploymentView { now: self.now, ledger: self.token@, escrow: self.contract@ }
    }
}

impl Deployment {
    pub closed spec fn wf(&self) -> bool {
        &&& self@.wf()
        &&& self.token.wf()
        &&& self.contract.wf()
    }

    /// A fresh deployment at time `now`: an unfunded escrow with account
    /// `escrow_address`, and an empty ledger of token `token_id`.
    pub fn new(now: u64, token_id: u64, escrow_address: u64) -> (r: Deployment)
        ensures
            r.wf(),
            r@.now == now,
            r@.ledger == LedgerView::empty(token_id),
            r@.escrow == (EscrowView { address: escrow_address, record: None, initialized: false }),
    {
        Deployment {
            now,
            token: TokenLedger::new(token_id),
            contract: ClaimableBalanceContract::new(escrow_address),
        }
    }

    pub fn now(&self) -> (r: u64)
        ensures
            r == self@.now,
    {
        self.now
    }

    pub fn token_id(&self) -> (r: u64)
        ensures
            r == self@.ledger.id,
    {
        self.token.id()
    }

    pub fn escrow_address(&self) -> (r: u64)
        ensures
            r == self@.escrow.address,
    {
        self.contract.address()
    }

    pub fn balance(&self, who: u64) -> (r: i128)
        ensures
            r == self@.ledger.balance(who),
    {
        self.token.balance(who)
    }

    pub fn allowance(&self, owner: u64, spender: u64) -> (r: i128)
        ensures
            r == self@.ledger.allowance(owner, spender),
    {
        self.token.allowance(owner, spender)
    }

    pub fn is_initialized(&self) -> (r: bool)
        ensures
            r == self@.escrow.initialized,
    {
        self.contract.is_initialized()
    }

    /// The escrow's funded record, if any.
    pub fn record(&self) -> (r: Option<&ClaimableBalance>)
        ensures
            match r {
                Some(b) => self@.escrow.record == Some(b@),
                None => self@.escrow.record is None,
            },
    {
        self.contract.balance()
    }

    pub fn mint(&mut self, to: u64, amount: i128) -> (r: Result<(), Error>)
        requires
            old(self).wf(),
        ensures
            final(self).wf(),
            applied(
                old(self)@,
                final(self)@,
                r,
                old(self)@.step(Step::Mint { to, amount: amount as int }),
            ),
    {
        if to == self.contract.address() {
            return Err(Error::Unauthorized);
        }
        self.token.mint(to, amount)
    }

    pub fn approve(&mut self, owner: u64, spender: u64, amount: i128) -> (r: Result<(), Error>)
        requires
            old(self).wf(),
        ensures
            final(self).wf(),
            applied(
                old(self)@,
                final(self)@,
                r,
                old(self)@.step(Step::Approve { owner, spender, amount: amount as int }),
            ),
    {
        self.token.approve(owner, spender, amount)
    }

    pub fn deposit(
        &mut self,
        depositor: Signer,
        amount: i128,
        claimants: Vec<u64>,
        time_bound: TimeBound,
    ) -> (r: Result<(), Error>)
        requires
            old(self).wf(),
        ensures
            final(self).wf(),
            applied(
                old(self)@,
                final(self)@,
                r,
                old(self)@.step(
                    Step::Deposit {
                        depositor,
                        amount: amount as int,
                        claimants: claimants@,
                        time_bound,
                    },
                ),
            ),
    {
        self.contract.deposit(&mut self.token, depositor, amount, claimants, time_bound)
    }

    /// A claim made at the deployment's current time.
    pub fn claim(&mut self, claimant: Signer) -> (r: Result<(), Error>)
        requires
            old(self).wf(),
        ensures
            final(self).wf(),
            applied(old(self)@, final(self)@, r, old(self)@.step(Step::Claim { claimant })),
    {
        self.contract.claim(&mut self.token, claimant, self.now)
    }

    /// Moves the clock forward by `seconds`, held at the largest timestamp.
    pub fn advance_time(&mut self, seconds: u64)
        requires
            old(self).wf(),
        ensures
            final(self).wf(),
            old(self)@.step(Step::AdvanceTime { seconds }) == Ok::<DeploymentView, Error>(
                final(self)@,
            ),
    {
        self.now = self.now.saturating_add(seconds);
    }

    /// A well-formed deployment's view is well formed: the escrow's account
    /// holds exactly what its record says, the record's token is the
    /// ledger's, its amount is non-negative, it names at most ten distinct
    /// claimants, and the escrow is initialized exactly when it is funded.
    pub proof fn lemma_view_wf(&self)
        requires
            self.wf(),
        ensures
            self@.wf(),
    {
    }

    /// Checks at run time that the escrow's account holds exactly what its
    /// record says, on the record's token, and that the escrow is initialized
    /// exactly when it is funded. This always holds, together with the rest
    /// of the view's well-formedness.
    pub fn invariants_hold(&self) -> (r: bool)
        requires
            self.wf(),
        ensures
            r == (self@.escrow.conserved(self@.ledger) && self@.escrow.initialized
                == self@.escrow.record is Some),
            r,
            self@.wf(),
    {
        let held = self.token.balance(self.contract.address());
        match self.contract.balance() {
            Some(b) => b.token == self.token.id() && held == b.amount && self.contract.is_initialized(),
            None => held == 0 && !self.contract.is_initialized(),
        }
    }
}

} // verus!
