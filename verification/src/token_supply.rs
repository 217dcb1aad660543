use vstd::prelude::*;

use crate::address::Address;
use crate::erc6909::{
    approve_post, approve_result, burn_post, burn_result, lemma_bal_le_sum, mint_post,
    set_operator_post, set_operator_result, transfer_from_post, transfer_from_result,
    transfer_post, transfer_result, Erc6909,
};
use crate::error::Error;
use crate::table::{Key, Table};
use crate::u256::{u256_max, U256};

verus! {

/// The key of the supply counter of `id`.
pub open spec fn sup_key(id: U256) -> Key {
    Key { a: Address::spec_zero(), b: Address::spec_zero(), c: id }
}

/// The core ledger plus a per-identifier total-supply counter.
///
/// Every read and every transfer-surface operation is a pure
/// pass-through to the wrapped ledger; mint and burn are intercepted
/// to keep the counter equal to minted-minus-burned for each
/// identifier.
pub struct Erc6909Supply {
    /// The wrapped core ledger, the single source of truth for
    /// balances, allowances, and operator flags.
    pub base: Erc6909,
    total_supplies: Table,
}

impl Erc6909Supply {
    /// The wrapped core ledger, as a specification value; the
    /// contracts below are stated over it.
    pub closed spec fn ledger(self) -> Erc6909 {
        self.base
    }

    /// The running minted-minus-burned total for `id`.
    pub closed spec fn sup(self, id: U256) -> nat {
        self.total_supplies.spec_get(sup_key(id))
    }

    /// The supply counter of every identifier agrees with the wrapped
    /// ledger: it equals the balance of that identifier summed over
    /// every owner. A fresh instance satisfies this, and every
    /// operation preserves it.
    pub open spec fn supply_consistent(self) -> bool {
        forall|i: U256| self.sup(i) == self.ledger().bal_sum(i)
    }
}

/// No supply counter differs between `pre` and `post`.
pub open spec fn supplies_unchanged(pre: Erc6909Supply, post: Erc6909Supply) -> bool {
    forall|i: U256| post.sup(i) == pre.sup(i)
}

/// The outcome of a mint through the supply tracker: the wrapped
/// ledger's checks, plus an overflow check on the supply counter
/// itself.
pub open spec fn supply_mint_result(
    s: Erc6909Supply,
    caller: Address,
    to: Address,
    id: U256,
    amount: U256,
) -> Result<(), Error> {
    if caller.spec_is_zero() {
        Err(Error::InvalidApprover)
    } else if to.spec_is_zero() {
        Err(Error::InvalidReceiver)
    } else if s.sup(id) + amount.as_nat() > u256_max() {
        Err(Error::ArithmeticOverflow)
    } else if s.ledger().bal(to, id) + amount.as_nat() > u256_max() {
        Err(Error::ArithmeticOverflow)
    } else {
        Ok(())
    }
}

impl Erc6909Supply {
    /// A fresh instance: an empty ledger and all-zero supply counters.
    pub fn new() -> (r: Erc6909Supply)
        ensures
            forall|o: Address, i: U256| r.ledger().bal(o, i) == 0,
            forall|o: Address, s: Address, i: U256| r.ledger().allow(o, s, i) == 0,
            forall|o: Address, p: Address| !r.ledger().op(o, p),
            forall|i: U256| r.sup(i) == 0,
            r.supply_consistent(),
    {
        Erc6909Supply { base: Erc6909::new(), total_supplies: Table::new() }
    }

    /// The running minted-minus-burned total for `id`; zero for an
    /// identifier never minted.
    pub fn total_supply(&self, id: U256) -> (r: U256)
        ensures
            r.as_nat() == self.sup(id),
    {
        self.total_supplies.get(Key { a: Address::zero(), b: Address::zero(), c: id })
    }

    /// Pass-through read of the wrapped ledger's balance.
    pub fn balance_of(&self, owner: Address, id: U256) -> (r: U256)
        ensures
            r.as_nat() == self.ledger().bal(owner, id),
    {
        self.base.balance_of(owner, id)
    }

    /// Pass-through read of the wrapped ledger's allowance.
    pub fn allowance(&self, owner: Address, spender: Address, id: U256) -> (r: U256)
        ensures
            r.as_nat() == self.ledger().allow(owner, spender, id),
    {
        self.base.allowance(owner, spender, id)
    }

    /// Pass-through read of the wrapped ledger's operator flag.
    pub fn is_operator(&self, owner: Address, operator: Address) -> (r: bool)
        ensures
            r == self.ledger().op(owner, operator),
    {
        self.base.is_operator(owner, operator)
    }

    /// Pass-through to the wrapped ledger's approve.
    pub fn approve(&mut self, caller: Address, spender: Address, id: U256, amount: U256) -> (r:
        Result<bool, Error>)
        ensures
            r == approve_result(caller, spender),
            r is Ok ==> approve_post(
                old(self).ledger(),
                final(self).ledger(),
                caller,
                spender,
                id,
                amount.as_nat(),
            ) && supplies_unchanged(*old(self), *final(self)),
            r is Err ==> *final(self) == *old(self),
            old(self).supply_consistent() ==> final(self).supply_consistent(),
    {
        let r = self.base.approve(caller, spender, id, amount);
        proof {
            if old(self).supply_consistent() {
                assert forall|i: U256| self.sup(i) == self.ledger().bal_sum(i) by {
                    assert(old(self).sup(i) == old(self).ledger().bal_sum(i));
                }
            }
        }
        r
    }

    /// Pass-through to the wrapped ledger's set-operator.
    pub fn set_operator(&mut self, caller: Address, operator: Address, approved: bool) -> (r:
        Result<bool, Error>)
        ensures
            r == set_operator_result(caller, operator),
            r is Ok ==> set_operator_post(
                old(self).ledger(),
                final(self).ledger(),
                caller,
                operator,
                approved,
            ) && supplies_unchanged(*old(self), *final(self)),
            r is Err ==> *final(self) == *old(self),
            old(self).supply_consistent() ==> final(self).supply_consistent(),
    {
        let r = self.base.set_operator(caller, operator, approved);
        proof {
            if old(self).supply_consistent() {
                assert forall|i: U256| self.sup(i) == self.ledger().bal_sum(i) by {
                    assert(old(self).sup(i) == old(self).ledger().bal_sum(i));
                }
            }
        }
        r
    }

    /// Pass-through to the wrapped ledger's transfer.
    pub fn transfer(&mut self, caller: Address, to: Address, id: U256, amount: U256) -> (r: Result<
        bool,
        Error,
    >)
        ensures
            r == transfer_result(old(self).ledger(), caller, to, id, amount),
            r is Ok ==> transfer_post(
                old(self).ledger(),
                final(self).ledger(),
                caller,
                to,
                id,
                amount.as_nat(),
            ) && supplies_unchanged(*old(self), *final(self)),
            r is Err ==> *final(self) == *old(self),
            old(self).supply_consistent() ==> final(self).supply_consistent(),
    {
        let r = self.base.transfer(caller, to, id, amount);
        proof {
            if old(self).supply_consistent() {
                assert forall|i: U256| self.sup(i) == self.ledger().bal_sum(i) by {
                    assert(old(self).sup(i) == old(self).ledger().bal_sum(i));
                }
            }
        }
        r
    }

    /// Pass-through to the wrapped ledger's transfer-from.
    pub fn transfer_from(
        &mut self,
        caller: Address,
        from: Address,
        to: Address,
        id: U256,
        amount: U256,
    ) -> (r: Result<bool, Error>)
        ensures
            r == transfer_from_result(old(self).ledger(), caller, from, to, id, amount),
            r is Ok ==> transfer_from_post(
                old(self).ledger(),
                final(self).ledger(),
                caller,
                from,
                to,
                id,
                amount.as_nat(),
            ) && supplies_unchanged(*old(self), *final(self)),
            r is Err ==> *final(self) == *old(self),
            old(self).supply_consistent() ==> final(self).supply_consistent(),
    {
        let r = self.base.transfer_from(caller, from, to, id, amount);
        proof {
            if old(self).supply_consistent() {
                assert forall|i: U256| self.sup(i) == self.ledger().bal_sum(i) by {
                    assert(old(self).sup(i) == old(self).ledger().bal_sum(i));
                }
            }
        }
        r
    }

    /// Mint through the supply tracker: grows the supply counter and
    /// the recipient's balance by the same amount, or fails before
    /// either is touched.
    pub fn mint(&mut self, caller: Address, to: Address, id: U256, amount: U256) -> (r: Result<
        (),
        Error,
    >)
        ensures
            r == supply_mint_result(*old(self), caller, to, id, amount),
            r is Ok ==> mint_post(old(self).ledger(), final(self).ledger(), to, id, amount.as_nat())
                && final(self).sup(id) == old(self).sup(id) + amount.as_nat() && forall|i: U256|
                i != id ==> final(self).sup(i) == old(self).sup(i),
            r is Err ==> *final(self) == *old(self),
            old(self).supply_consistent() ==> final(self).supply_consistent(),
    {
        if caller.is_zero() {
            return Err(Error::InvalidApprover);
        }
        if to.is_zero() {
            return Err(Error::InvalidReceiver);
        }
        let key = Key { a: Address::zero(), b: Address::zero(), c: id };
        let cur = self.total_supplies.get(key);
        let grown = match cur.checked_add(amount) {
            Some(v) => v,
            None => {
                return Err(Error::ArithmeticOverflow);
            },
        };
        let r = match self.base.mint(caller, to, id, amount) {
            Ok(()) => {
                self.total_supplies.set(key, grown);
                Ok(())
            },
            Err(e) => Err(e),
        };
        proof {
            if old(self).supply_consistent() {
                assert forall|i: U256| self.sup(i) == self.ledger().bal_sum(i) by {
                    assert(old(self).sup(i) == old(self).ledger().bal_sum(i));
                }
            }
        }
        r
    }

    /// Burn through the supply tracker: shrinks the source's balance,
    /// then the supply counter, flooring the counter at zero
    /// rather than trusting the balance check alone. Under
    /// `supply_consistent` the floor is never hit.
    pub fn burn(&mut self, caller: Address, from: Address, id: U256, amount: U256) -> (r: Result<
        (),
        Error,
    >)
        ensures
            r == burn_result(old(self).ledger(), caller, from, id, amount),
            r is Ok ==> burn_post(old(self).ledger(), final(self).ledger(), from, id, amount.as_nat())
                && final(self).sup(id) == (if amount.as_nat() <= old(self).sup(id) {
                old(self).sup(id) - amount.as_nat()
            } else {
                0
            }) && forall|i: U256| i != id ==> final(self).sup(i) == old(self).sup(i),
            r is Ok && old(self).supply_consistent() ==> final(self).sup(id) == old(self).sup(id)
                - amount.as_nat(),
            r is Err ==> *final(self) == *old(self),
            old(self).supply_consistent() ==> final(self).supply_consistent(),
    {
        proof {
            lemma_bal_le_sum(self.base, from, id);
        }
        let r = match self.base.burn(caller, from, id, amount) {
            Ok(()) => {
                let key = Key { a: Address::zero(), b: Address::zero(), c: id };
                let cur = self.total_supplies.get(key);
                let shrunk = match cur.checked_sub(amount) {
                    Some(v) => v,
                    None => U256::zero(),
                };
                self.total_supplies.set(key, shrunk);
                Ok(())
            },
            Err(e) => Err(e),
        };
        proof {
            if old(self).supply_consistent() {
                assert forall|i: U256| self.sup(i) == self.ledger().bal_sum(i) by {
                    assert(old(self).sup(i) == old(self).ledger().bal_sum(i));
                }
            }
        }
        r
    }
}


impl crate::traits::IErc6909Supply for Erc6909Supply {
    open spec fn sup_of(&self, id: U256) -> nat {
        self.sup(id)
    }

    fn total_supply(&self, id: U256) -> (r: U256) {
        Erc6909Supply::total_supply(self, id)
    }
}


impl crate::traits::IErc6909 for Erc6909Supply {
    open spec fn bal_of(&self, owner: Address, id: U256) -> nat {
        self.ledger().bal(owner, id)
    }

    open spec fn allow_of(&self, owner: Address, spender: Address, id: U256) -> nat {
        self.ledger().allow(owner, spender, id)
    }

    open spec fn op_of(&self, owner: Address, operator: Address) -> bool {
        self.ledger().op(owner, operator)
    }

    fn balance_of(&self, owner: Address, id: U256) -> (r: U256) {
        Erc6909Supply::balance_of(self, owner, id)
    }

    fn allowance(&self, owner: Address, spender: Address, id: U256) -> (r: U256) {
        Erc6909Supply::allowance(self, owner, spender, id)
    }

    fn is_operator(&self, owner: Address, operator: Address) -> (r: bool) {
        Erc6909Supply::is_operator(self, owner, operator)
    }

    fn approve(&mut self, caller: Address, spender: Address, id: U256, amount: U256) -> (r: Result<
        bool,
        Error,
    >) {
        Erc6909Supply::approve(self, caller, spender, id, amount)
    }

    fn set_operator(&mut self, caller: Address, operator: Address, approved: bool) -> (r: Result<
        bool,
        Error,
    >) {
        Erc6909Supply::set_operator(self, caller, operator, approved)
    }

    fn transfer(&mut self, caller: Address, to: Address, id: U256, amount: U256) -> (r: Result<
        bool,
        Error,
    >) {
        Erc6909Supply::transfer(self, caller, to, id, amount)
    }

    fn transfer_from(
        &mut self,
        caller: Address,
        from: Address,
        to: Address,
        id: U256,
        amount: U256,
    ) -> (r: Result<bool, Error>) {
        Erc6909Supply::transfer_from(self, caller, from, to, id, amount)
    }
}

impl crate::traits::IErc6909Mintable for Erc6909Supply {
    fn mint(&mut self, caller: Address, to: Address, id: U256, amount: U256) -> (r: Result<
        (),
        Error,
    >) {
        Erc6909Supply::mint(self, caller, to, id, amount)
    }
}

impl crate::traits::IErc6909Burnable for Erc6909Supply {
    fn burn(&mut self, caller: Address, from: Address, id: U256, amount: U256) -> (r: Result<
        (),
        Error,
    >) {
        Erc6909Supply::burn(self, caller, from, id, amount)
    }
}


/// In a consistent state no single balance exceeds the supply counter
/// of its identifier: the counter equals the balances summed over all
/// owners, and every other owner contributes a non-negative amount.
pub proof fn lemma_supply_bounds_balance(s: Erc6909Supply, owner: Address, id: U256)
    requires
        s.supply_consistent(),
    ensures
        s.ledger().bal(owner, id) <= s.sup(id),
{
    lemma_bal_le_sum(s.ledger(), owner, id);
}

} // verus!
