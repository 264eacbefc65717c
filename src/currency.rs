use std::collections::HashMap;

use vstd::prelude::*;

use crate::types::{AccountId, Balance, PaymentError};

verus! {

broadcast use vstd::std_specs::hash::group_hash_axioms;

/// The balance ledger that purchases and fees are paid through.
pub trait Currency: Sized {
    /// What `who` holds.
    spec fn balance(&self, who: AccountId) -> nat;

    /// The least that a payer who is kept alive must still hold afterwards.
    spec fn minimum_balance(&self) -> nat;

    /// What a transfer of `amount` from `from` to `to`, with `keep_alive` as
    /// given, returns in this state.
    spec fn transfer_outcome(&self, from: AccountId, to: AccountId, amount: Balance, keep_alive: bool) -> Result<
        (),
        PaymentError,
    >;

    /// Moves `amount` from `from` to `to`. With `keep_alive` the transfer is
    /// refused where it would leave `from` below the minimum balance. A
    /// refused transfer changes no balance.
    fn transfer(&mut self, from: AccountId, to: AccountId, amount: Balance, keep_alive: bool) -> (r:
        Result<(), PaymentError>)
        ensures
            r == old(self).transfer_outcome(from, to, amount, keep_alive),
            final(self).minimum_balance() == old(self).minimum_balance(),
            r is Err || from == to ==> forall|x: AccountId| #[trigger] final(self).balance(x) == old(
                self,
            ).balance(x),
            r is Ok && from != to ==> final(self).balance(from) + amount == old(self).balance(from),
            r is Ok && from != to ==> final(self).balance(to) == old(self).balance(to) + amount,
            r is Ok ==> forall|x: AccountId| x != from && x != to ==> #[trigger] final(self).balance(x)
                == old(self).balance(x),
            r is Ok ==> old(self).balance(from) >= amount,
            r is Ok && keep_alive ==> old(self).balance(from) >= amount + old(self).minimum_balance(),
    ;
}

/// No balance differs between `a` and `b`.
pub open spec fn same_balances<C: Currency>(a: C, b: C) -> bool {
    forall|x: AccountId| #[trigger] b.balance(x) == a.balance(x)
}

/// `b` is `a` with `amount` moved from `from` to `to`.
pub open spec fn moved<C: Currency>(a: C, b: C, from: AccountId, to: AccountId, amount: nat) -> bool {
    if from == to {
        same_balances(a, b)
    } else {
        &&& b.balance(from) + amount == a.balance(from)
        &&& b.balance(to) == a.balance(to) + amount
        &&& forall|x: AccountId| x != from && x != to ==> #[trigger] b.balance(x) == a.balance(x)
    }
}

/// A plain balance table: an account that was never credited holds nothing.
pub struct Ledger {
    balances: HashMap<AccountId, Balance>,
    minimum: Balance,
}

/// What `who` holds in the table `m`.
pub open spec fn held(m: Map<AccountId, Balance>, who: AccountId) -> nat {
    if m.contains_key(who) {
        m[who] as nat
    } else {
        0
    }
}

/// What a transfer on the table `m`, with minimum balance `minimum`, returns:
/// refused when the payer holds too little, when a payer kept alive would drop
/// below the minimum, or when the payee's balance would overflow.
pub open spec fn ledger_outcome(
    m: Map<AccountId, Balance>,
    minimum: Balance,
    from: AccountId,
    to: AccountId,
    amount: Balance,
    keep_alive: bool,
) -> Result<(), PaymentError> {
    if held(m, from) < amount {
        Err(PaymentError::InsufficientBalance)
    } else if keep_alive && held(m, from) - amount < minimum {
        Err(PaymentError::KeepAlive)
    } else if from == to {
        Ok(())
    } else if held(m, to) + amount > Balance::MAX {
        Err(PaymentError::Overflow)
    } else {
        Ok(())
    }
}

impl View for Ledger {
    type V = Map<AccountId, Balance>;

    closed spec fn view(&self) -> Map<AccountId, Balance> {
        self.balances@
    }
}

impl Ledger {
    /// The least that a payer who is kept alive must still hold.
    pub closed spec fn minimum_spec(&self) -> Balance {
        self.minimum
    }

    /// An empty ledger with the given minimum balance.
    pub fn new(minimum: Balance) -> (r: Ledger)
        ensures
            r@ == Map::<AccountId, Balance>::empty(),
            r.minimum_spec() == minimum,
    {
        Ledger { balances: HashMap::new(), minimum }
    }

    /// Sets what `who` holds.
    pub fn set_balance(&mut self, who: AccountId, amount: Balance)
        ensures
            final(self)@ == old(self)@.insert(who, amount),
            final(self).minimum_spec() == old(self).minimum_spec(),
    {
        self.balances.insert(who, amount);
    }

    /// What `who` holds.
    pub fn free_balance(&self, who: AccountId) -> (r: Balance)
        ensures
            r as nat == held(self@, who),
    {
        match self.balances.get(&who) {
            Some(b) => *b,
            None => 0,
        }
    }

    /// The least that a payer who is kept alive must still hold.
    pub fn minimum_balance(&self) -> (r: Balance)
        ensures
            r == self.minimum_spec(),
    {
        self.minimum
    }

    /// Moves `amount` from `from` to `to`, or says why not and changes nothing.
    pub fn try_transfer(&mut self, from: AccountId, to: AccountId, amount: Balance, keep_alive: bool) -> (r:
        Result<(), PaymentError>)
        ensures
            final(self).minimum_spec() == old(self).minimum_spec(),
            r == ledger_outcome(old(self)@, old(self).minimum_spec(), from, to, amount, keep_alive),
            r is Err ==> final(self)@ == old(self)@,
            r is Ok && from == to ==> final(self)@ == old(self)@,
            r is Ok && from != to ==> final(self)@ == old(self)@.insert(
                from,
                (held(old(self)@, from) - amount) as Balance,
            ).insert(to, (held(old(self)@, to) + amount) as Balance),
    {
        let fb = self.free_balance(from);
        if fb < amount {
            return Err(PaymentError::InsufficientBalance);
        }
        if keep_alive && fb - amount < self.minimum {
            return Err(PaymentError::KeepAlive);
        }
        if from == to {
            return Ok(());
        }
        let tb = self.free_balance(to);
        if tb > Balance::MAX - amount {
            return Err(PaymentError::Overflow);
        }
        self.balances.insert(from, fb - amount);
        self.balances.insert(to, tb + amount);
        Ok(())
    }
}

impl Currency for Ledger {
    open spec fn balance(&self, who: AccountId) -> nat {
        held(self@, who)
    }

    open spec fn minimum_balance(&self) -> nat {
        self.minimum_spec() as nat
    }

    open spec fn transfer_outcome(&self, from: AccountId, to: AccountId, amount: Balance, keep_alive: bool) -> Result<
        (),
        PaymentError,
    > {
        ledger_outcome(self@, self.minimum_spec(), from, to, amount, keep_alive)
    }

    fn transfer(&mut self, from: AccountId, to: AccountId, amount: Balance, keep_alive: bool) -> (r:
        Result<(), PaymentError>)
    {
        let r = self.try_transfer(from, to, amount, keep_alive);
        proof {
            if r is Ok && from != to {
                assert forall|x: AccountId| x != from && x != to implies #[trigger] held(final(self)@, x)
                    == held(old(self)@, x) by {}
            }
        }
        r
    }
}

} // verus!
