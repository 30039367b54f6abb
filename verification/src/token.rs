//! Holdings of the settlement token: who holds how much, and the transfers
//! the escrow orders to move it.
//!
//! The escrow itself is a holder distinct from every account.

use vstd::prelude::*;
use std::collections::HashMap;
use crate::errors::EscrowError;
use crate::types::AccountId;

verus! {

broadcast use vstd::std_specs::hash::group_hash_axioms;

/// One holder of the token: the escrow or an account.
#[derive(Debug, Clone, Copy, PartialEq, Eq, Structural)]
pub enum Holder {
    Escrow,
    Account(AccountId),
}

/// A movement of `amount` tokens from one holder to another.
#[derive(Debug, Clone, Copy, PartialEq, Eq, Structural)]
pub struct Transfer {
    pub from: Holder,
    pub to: Holder,
    pub amount: i128,
}

/// The mathematical content of a token ledger: what the escrow holds and
/// what each account that ever held tokens holds.
pub ghost struct TokenView {
    pub escrow: i128,
    pub accounts: Map<AccountId, i128>,
}

/// What `h` holds; an account never credited holds nothing.
pub open spec fn holding(v: TokenView, h: Holder) -> int {
    match h {
        Holder::Escrow => v.escrow as int,
        Holder::Account(a) => if v.accounts.contains_key(a) { v.accounts[a] as int } else { 0 },
    }
}

/// Nobody holds anything.
pub open spec fn no_holdings() -> TokenView {
    TokenView { escrow: 0, accounts: Map::<AccountId, i128>::empty() }
}

/// `v` with `h` holding `amount`.
pub open spec fn with_holding(v: TokenView, h: Holder, amount: int) -> TokenView {
    match h {
        Holder::Escrow => TokenView { escrow: amount as i128, ..v },
        Holder::Account(a) => TokenView { accounts: v.accounts.insert(a, amount as i128), ..v },
    }
}

/// The holdings after `t` moved its tokens; a transfer to oneself changes
/// nothing.
pub open spec fn after_transfer(v: TokenView, t: Transfer) -> TokenView {
    if t.from == t.to {
        v
    } else {
        with_holding(with_holding(v, t.from, holding(v, t.from) - t.amount), t.to, holding(v, t.to) + t.amount)
    }
}

/// Why `t` cannot be carried out on `v`, if it cannot: the amount must be
/// positive, the sender must hold it, and the receiver's holding must stay
/// representable.
pub open spec fn transfer_outcome(v: TokenView, t: Transfer) -> Result<(), EscrowError> {
    if t.amount <= 0 {
        Err(EscrowError::AmountMustBePositive)
    } else if holding(v, t.from) < t.amount {
        Err(EscrowError::InsufficientBalance)
    } else if t.from != t.to && holding(v, t.to) + t.amount > i128::MAX {
        Err(EscrowError::PotentialOverflow)
    } else {
        Ok(())
    }
}

/// Why `amount` new tokens cannot be issued to `to`, if they cannot.
pub open spec fn mint_outcome(v: TokenView, to: AccountId, amount: int) -> Result<(), EscrowError> {
    if amount <= 0 {
        Err(EscrowError::AmountMustBePositive)
    } else if holding(v, Holder::Account(to)) + amount > i128::MAX {
        Err(EscrowError::PotentialOverflow)
    } else {
        Ok(())
    }
}

/// Every holding of the settlement token.
pub struct TokenLedger {
    escrow: i128,
    accounts: HashMap<AccountId, i128>,
}

impl View for TokenLedger {
    type V = TokenView;

    closed spec fn view(&self) -> TokenView {
        TokenView { escrow: self.escrow, accounts: self.accounts@ }
    }
}

impl TokenLedger {
    /// Nobody holds anything.
    pub fn new() -> (l: Self)
        ensures
            l@ == no_holdings(),
    {
        TokenLedger { escrow: 0, accounts: HashMap::new() }
    }

    /// What `h` holds.
    pub fn balance(&self, h: Holder) -> (b: i128)
        ensures
            b == holding(self@, h),
    {
        match h {
            Holder::Escrow => self.escrow,
            Holder::Account(a) => match self.accounts.get(&a) {
                Some(x) => *x,
                None => 0,
            },
        }
    }

    fn set(&mut self, h: Holder, amount: i128)
        ensures
            final(self)@ == with_holding(old(self)@, h, amount as int),
    {
        match h {
            Holder::Escrow => {
                self.escrow = amount;
            },
            Holder::Account(a) => {
                self.accounts.insert(a, amount);
            },
        }
    }

    /// Issues `amount` new tokens to `to` (see `mint_outcome`).
    pub fn mint(&mut self, to: AccountId, amount: i128) -> (r: Result<(), EscrowError>)
        ensures
            r == mint_outcome(old(self)@, to, amount as int),
            r is Ok ==> final(self)@ == with_holding(old(self)@, Holder::Account(to),
                holding(old(self)@, Holder::Account(to)) + amount),
            r is Err ==> final(self)@ == old(self)@,
    {
        if amount <= 0 {
            return Err(EscrowError::AmountMustBePositive);
        }
        let held = self.balance(Holder::Account(to));
        match held.checked_add(amount) {
            Some(sum) => {
                self.set(Holder::Account(to), sum);
                Ok(())
            },
            None => Err(EscrowError::PotentialOverflow),
        }
    }

    /// Carries out `t` (see `transfer_outcome`).
    pub fn transfer(&mut self, t: Transfer) -> (r: Result<(), EscrowError>)
        ensures
            r == transfer_outcome(old(self)@, t),
            r is Ok ==> final(self)@ == after_transfer(old(self)@, t),
            r is Err ==> final(self)@ == old(self)@,
    {
        if t.amount <= 0 {
            return Err(EscrowError::AmountMustBePositive);
        }
        let from_held = self.balance(t.from);
        if from_held < t.amount {
            return Err(EscrowError::InsufficientBalance);
        }
        if t.from == t.to {
            return Ok(());
        }
        let to_held = self.balance(t.to);
        match to_held.checked_add(t.amount) {
            Some(sum) => {
                self.set(t.from, from_held - t.amount);
                self.set(t.to, sum);
                Ok(())
            },
            None => Err(EscrowError::PotentialOverflow),
        }
    }
}

} // verus!
