//! An in-memory asset ledger: balances and allowances of one token.
use std::collections::HashMap;
use vstd::prelude::*;

use crate::error::{applied, Error};

verus! {

broadcast use vstd::std_specs::hash::group_hash_axioms;

/// The largest amount a balance or an allowance can hold.
pub open spec fn max_amount() -> int {
    i128::MAX as int
}

/// What a ledger holds: a balance for every principal and an allowance for
/// every (owner, spender) pair, zero where nothing was recorded.
pub struct LedgerView {
    pub id: u64,
    pub balances: Map<u64, int>,
    pub allowances: Map<(u64, u64), int>,
}

impl LedgerView {
    /// The ledger of token `id` in which every balance and allowance is zero.
    pub open spec fn empty(id: u64) -> LedgerView {
        LedgerView {
            id,
            balances: Map::new(|a: u64| true, |a: u64| 0int),
            allowances: Map::new(|k: (u64, u64)| true, |k: (u64, u64)| 0int),
        }
    }

    pub open spec fn balance(self, who: u64) -> int {
        self.balances[who]
    }

    pub open spec fn allowance(self, owner: u64, spender: u64) -> int {
        self.allowances[(owner, spender)]
    }

    /// Every balance and allowance is known and lies in `0..=max_amount()`.
    pub open spec fn wf(self) -> bool {
        &&& forall|a: u64| #[trigger] self.balances.contains_key(a)
        &&& forall|k: (u64, u64)| #[trigger] self.allowances.contains_key(k)
        &&& forall|a: u64| 0 <= #[trigger] self.balances[a] <= max_amount()
        &&& forall|k: (u64, u64)| 0 <= #[trigger] self.allowances[k] <= max_amount()
    }

    pub open spec fn with_balance(self, who: u64, v: int) -> LedgerView {
        LedgerView { balances: self.balances.insert(who, v), ..self }
    }

    pub open spec fn with_allowance(self, owner: u64, spender: u64, v: int) -> LedgerView {
        LedgerView { allowances: self.allowances.insert((owner, spender), v), ..self }
    }

    /// The ledger after `amount` moved from `from` to `to`.
    pub open spec fn moved(self, from: u64, to: u64, amount: int) -> LedgerView {
        if from == to {
            self
        } else {
            self.with_balance(from, self.balance(from) - amount).with_balance(
                to,
                self.balance(to) + amount,
            )
        }
    }

    pub open spec fn mint_outcome(self, to: u64, amount: int) -> Result<LedgerView, Error> {
        if amount < 0 {
            Err(Error::NegativeAmount)
        } else if self.balance(to) + amount > max_amount() {
            Err(Error::BalanceOverflow)
        } else {
            Ok(self.with_balance(to, self.balance(to) + amount))
        }
    }

    /// Approving adds to what `spender` may already pull from `owner`.
    pub open spec fn approve_outcome(self, owner: u64, spender: u64, amount: int) -> Result<
        LedgerView,
        Error,
    > {
        if amount < 0 {
            Err(Error::NegativeAmount)
        } else if self.allowance(owner, spender) + amount > max_amount() {
            Err(Error::AllowanceOverflow)
        } else {
            Ok(self.with_allowance(owner, spender, self.allowance(owner, spender) + amount))
        }
    }

    /// A transfer made by `from` itself.
    pub open spec fn transfer_outcome(self, from: u64, to: u64, amount: int) -> Result<
        LedgerView,
        Error,
    > {
        if amount < 0 {
            Err(Error::NegativeAmount)
        } else if amount > self.balance(from) {
            Err(Error::InsufficientBalance)
        } else if from != to && self.balance(to) + amount > max_amount() {
            Err(Error::BalanceOverflow)
        } else {
            Ok(self.moved(from, to, amount))
        }
    }

    /// A transfer made by `spender` out of what `from` allowed it.
    pub open spec fn transfer_from_outcome(
        self,
        spender: u64,
        from: u64,
        to: u64,
        amount: int,
    ) -> Result<LedgerView, Error> {
        if amount < 0 {
            Err(Error::NegativeAmount)
        } else if amount > self.allowance(from, spender) {
            Err(Error::InsufficientAllowance)
        } else {
            match self.transfer_outcome(from, to, amount) {
                Ok(l) => Ok(
                    l.with_allowance(from, spender, self.allowance(from, spender) - amount),
                ),
                Err(e) => Err(e),
            }
        }
    }
}

/// The balances and allowances of the token identified by `id`.
pub struct TokenLedger {
    id: u64,
    balances: HashMap<u64, i128>,
    allowances: HashMap<u64, HashMap<u64, i128>>,
}

impl View for TokenLedger {
    type V = LedgerView;

    closed spec fn view(&self) -> LedgerView {
        LedgerView {
            id: self.id,
            balances: Map::new(
                |a: u64| true,
                |a: u64|
                    if self.balances@.contains_key(a) {
                        self.balances@[a] as int
                    } else {
                        0
                    },
            ),
            allowances: Map::new(
                |k: (u64, u64)| true,
                |k: (u64, u64)|
                    if self.allowances@.contains_key(k.0) && self.allowances@[k.0]@.contains_key(
                        k.1,
                    ) {
                        self.allowances@[k.0]@[k.1] as int
                    } else {
                        0
                    },
            ),
        }
    }
}

impl TokenLedger {
    pub open spec fn wf(&self) -> bool {
        self@.wf()
    }

    /// A ledger for token `id` in which every balance and allowance is zero.
    pub fn new(id: u64) -> (r: TokenLedger)
        ensures
            r.wf(),
            r@ == LedgerView::empty(id),
    {
        let r = TokenLedger { id, balances: HashMap::new(), allowances: HashMap::new() };
        proof {
            assert(r@.balances =~= LedgerView::empty(id).balances);
            assert(r@.allowances =~= LedgerView::empty(id).allowances);
        }
        r
    }

    pub fn id(&self) -> (r: u64)
        ensures
            r == self@.id,
    {
        self.id
    }

    pub fn balance(&self, who: u64) -> (r: i128)
        ensures
            r == self@.balance(who),
    {
        match self.balances.get(&who) {
            Some(v) => *v,
            None => 0,
        }
    }

    pub fn allowance(&self, owner: u64, spender: u64) -> (r: i128)
        ensures
            r == self@.allowance(owner, spender),
    {
        match self.allowances.get(&owner) {
            Some(inner) => match inner.get(&spender) {
                Some(v) => *v,
                None => 0,
            },
            None => 0,
        }
    }

    /// Creates `amount` new units in the account of `to`.
    pub fn mint(&mut self, to: u64, amount: i128) -> (r: Result<(), Error>)
        requires
            old(self).wf(),
        ensures
            final(self).wf(),
            applied(old(self)@, final(self)@, r, old(self)@.mint_outcome(to, amount as int)),
    {
        if amount < 0 {
            return Err(Error::NegativeAmount);
        }
        let held = self.balance(to);
        if held > i128::MAX - amount {
            return Err(Error::BalanceOverflow);
        }
        self.set_balance(to, held + amount);
        Ok(())
    }

    /// Lets `spender` pull `amount` more from `owner`'s account. An approval
    /// that would take the allowance past the largest amount fails and leaves
    /// it as it was.
    pub fn approve(&mut self, owner: u64, spender: u64, amount: i128) -> (r: Result<(), Error>)
        requires
            old(self).wf(),
        ensures
            final(self).wf(),
            applied(
                old(self)@,
                final(self)@,
                r,
                old(self)@.approve_outcome(owner, spender, amount as int),
            ),
    {
        if amount < 0 {
            return Err(Error::NegativeAmount);
        }
        let current = self.allowance(owner, spender);
        match current.checked_add(amount) {
            Some(total) => {
                self.set_allowance(owner, spender, total);
                Ok(())
            },
            None => Err(Error::AllowanceOverflow),
        }
    }

    /// Moves `amount` from `from` to `to`, on the authority of `from`.
    pub fn transfer(&mut self, from: u64, to: u64, amount: i128) -> (r: Result<(), Error>)
        requires
            old(self).wf(),
        ensures
            final(self).wf(),
            applied(
                old(self)@,
                final(self)@,
                r,
                old(self)@.transfer_outcome(from, to, amount as int),
            ),
    {
        if amount < 0 {
            return Err(Error::NegativeAmount);
        }
        let from_held = self.balance(from);
        if amount > from_held {
            return Err(Error::InsufficientBalance);
        }
        if from != to {
            let to_held = self.balance(to);
            if to_held > i128::MAX - amount {
                return Err(Error::BalanceOverflow);
            }
            self.set_balance(from, from_held - amount);
            self.set_balance(to, to_held + amount);
        }
        Ok(())
    }

    /// Moves `amount` from `from` to `to` on the authority of `spender`,
    /// spending that much of what `from` allowed `spender`.
    pub fn transfer_from(&mut self, spender: u64, from: u64, to: u64, amount: i128) -> (r: Result<
        (),
        Error,
    >)
        requires
            old(self).wf(),
        ensures
            final(self).wf(),
            applied(
                old(self)@,
                final(self)@,
                r,
                old(self)@.transfer_from_outcome(spender, from, to, amount as int),
            ),
    {
        if amount < 0 {
            return Err(Error::NegativeAmount);
        }
        let allowed = self.allowance(from, spender);
        if amount > allowed {
            return Err(Error::InsufficientAllowance);
        }
        match self.transfer(from, to, amount) {
            Ok(()) => {
                self.set_allowance(from, spender, allowed - amount);
                Ok(())
            },
            Err(e) => Err(e),
        }
    }

    fn set_balance(&mut self, who: u64, v: i128)
        ensures
            final(self)@ == old(self)@.with_balance(who, v as int),
    {
        self.balances.insert(who, v);
        proof {
            assert(self@.balances =~= old(self)@.balances.insert(who, v as int));
            assert(self@.allowances =~= old(self)@.allowances);
        }
    }

    fn set_allowance(&mut self, owner: u64, spender: u64, v: i128)
        ensures
            final(self)@ == old(self)@.with_allowance(owner, spender, v as int),
    {
        let mut inner = match self.allowances.remove(&owner) {
            Some(m) => m,
            None => HashMap::new(),
        };
        inner.insert(spender, v);
        self.allowances.insert(owner, inner);
        proof {
            assert(self@.balances =~= old(self)@.balances);
            assert(self@.allowances =~= old(self)@.allowances.insert((owner, spender), v as int));
        }
    }
}

} // verus!
