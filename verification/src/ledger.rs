use vstd::prelude::*;
use std::collections::HashMap;

verus! {

/// In-memory model of the external asset service's ledger: every account
/// identity owns a non-negative balance, counted in the asset's smallest
/// denomination. The contract mutates balances only through [`Ledger::transfer`],
/// mirroring the service's atomic transfer primitive.
pub struct Ledger {
    balances: HashMap<u64, i128>,
}

/// The balances `post` holds after moving `amount` from `from` to `to` in
/// `pre`: the two accounts are debited and credited, every other account is
/// untouched, and a transfer within one account moves nothing.
pub open spec fn transferred(pre: Ledger, post: Ledger, from: u64, to: u64, amount: int) -> bool {
    if from == to {
        post == pre
    } else {
        &&& post.balance_of(from) == pre.balance_of(from) - amount
        &&& post.balance_of(to) == pre.balance_of(to) + amount
        &&& forall|a: u64| a != from && a != to ==> post.balance_of(a) == pre.balance_of(a)
    }
}

impl Ledger {
    /// The balance of account `id`; an account never credited holds zero.
    pub closed spec fn balance_of(&self, id: u64) -> int {
        if self.balances@.contains_key(id) {
            self.balances@[id] as int
        } else {
            0
        }
    }

    /// No account's balance is ever negative.
    pub open spec fn wf(&self) -> bool {
        forall|id: u64| #[trigger] self.balance_of(id) >= 0
    }

    /// Whether the service would carry out a transfer of `amount` from
    /// `from` to `to`: the amount is non-negative, the payer can cover it,
    /// and the payee's balance stays representable.
    pub open spec fn can_transfer(&self, from: u64, to: u64, amount: int) -> bool {
        &&& 0 <= amount
        &&& self.balance_of(from) >= amount
        &&& from != to ==> self.balance_of(to) + amount <= i128::MAX
    }

    /// A ledger with no accounts.
    pub fn new() -> (r: Ledger)
        ensures
            r.wf(),
            forall|id: u64| r.balance_of(id) == 0,
    {
        Ledger { balances: HashMap::new() }
    }

    /// The balance of account `id`.
    pub fn balance(&self, id: u64) -> (r: i128)
        ensures
            r == self.balance_of(id),
    {
        match self.balances.get(&id) {
            Some(v) => *v,
            None => 0,
        }
    }

    /// Creates `amount` fresh units in `id`'s account, as the asset's issuer
    /// would; the escrow contract itself never mints.
    pub fn mint(&mut self, id: u64, amount: i128)
        requires
            old(self).wf(),
            0 <= amount,
            old(self).balance_of(id) + amount <= i128::MAX,
        ensures
            final(self).wf(),
            final(self).balance_of(id) == old(self).balance_of(id) + amount,
            forall|other: u64|
                other != id ==> final(self).balance_of(other) == old(self).balance_of(other),
    {
        let b = self.balance(id);
        self.balances.insert(id, b + amount);
        proof {
            assert forall|other: u64| #[trigger] self.balance_of(other) >= 0 by {
                assert(old(self).balance_of(other) >= 0);
            }
        }
    }

    /// Moves `amount` from `from` to `to`, atomically. Returns whether the
    /// transfer happened; when it did not, the ledger is unchanged.
    pub fn transfer(&mut self, from: u64, to: u64, amount: i128) -> (ok: bool)
        requires
            old(self).wf(),
        ensures
            final(self).wf(),
            ok == old(self).can_transfer(from, to, amount as int),
            ok ==> transferred(*old(self), *final(self), from, to, amount as int),
            !ok ==> *final(self) == *old(self),
    {
        if amount < 0 {
            return false;
        }
        let from_bal = self.balance(from);
        if from_bal < amount {
            return false;
        }
        if from == to {
            return true;
        }
        let to_bal = self.balance(to);
        if to_bal > i128::MAX - amount {
            return false;
        }
        self.balances.insert(from, from_bal - amount);
        self.balances.insert(to, to_bal + amount);
        proof {
            assert forall|other: u64| #[trigger] self.balance_of(other) >= 0 by {
                assert(old(self).balance_of(other) >= 0);
            }
        }
        true
    }
}

} // verus!
