use vstd::prelude::*;

use crate::address::Address;
use crate::erc6909::{approve_result, set_operator_result};
use crate::error::Error;
use crate::u256::{u256_max, U256};

verus! {

/// Core ledger capability: balances, allowances, operator flags, and
/// the transfer surface. Each implementor models its state with the
/// three spec functions, and every method's contract is stated over
/// them.
pub trait IErc6909: Sized {
    /// The balance of `owner` for `id`, as the implementor models it.
    spec fn bal_of(&self, owner: Address, id: U256) -> nat;

    /// The allowance of (`owner`, `spender`) for `id`.
    spec fn allow_of(&self, owner: Address, spender: Address, id: U256) -> nat;

    /// The blanket-operator flag of (`owner`, `operator`).
    spec fn op_of(&self, owner: Address, operator: Address) -> bool;

    /// The balance of `owner` for `id`; zero for unknown keys.
    fn balance_of(&self, owner: Address, id: U256) -> (r: U256)
        ensures
            r.as_nat() == self.bal_of(owner, id),
    ;

    /// The allowance of (`owner`, `spender`) for `id`; zero for
    /// unknown keys.
    fn allowance(&self, owner: Address, spender: Address, id: U256) -> (r: U256)
        ensures
            r.as_nat() == self.allow_of(owner, spender, id),
    ;

    /// Whether `operator` is a blanket operator for `owner`; false
    /// for unknown keys.
    fn is_operator(&self, owner: Address, operator: Address) -> (r: bool)
        ensures
            r == self.op_of(owner, operator),
    ;

    /// Sets the allowance of (`caller`, `spender`) for `id` to
    /// exactly `amount`; balances and operator flags are untouched.
    fn approve(&mut self, caller: Address, spender: Address, id: U256, amount: U256) -> (r: Result<
        bool,
        Error,
    >)
        ensures
            r == approve_result(caller, spender),
            r is Ok ==> final(self).allow_of(caller, spender, id) == amount.as_nat() && (forall|
                o: Address,
                s: Address,
                i: U256,
            |
                !(o == caller && s == spender && i == id) ==> final(self).allow_of(o, s, i) == old(
                    self,
                ).allow_of(o, s, i)) && (forall|o: Address, i: U256|
                final(self).bal_of(o, i) == old(self).bal_of(o, i)) && (forall|
                o: Address,
                p: Address,
            | final(self).op_of(o, p) == old(self).op_of(o, p)),
            r is Err ==> *final(self) == *old(self),
    ;

    /// Sets or clears the blanket-operator flag of (`caller`,
    /// `operator`); balances and allowances are untouched.
    fn set_operator(&mut self, caller: Address, operator: Address, approved: bool) -> (r: Result<
        bool,
        Error,
    >)
        ensures
            r == set_operator_result(caller, operator),
            r is Ok ==> final(self).op_of(caller, operator) == approved && (forall|
                o: Address,
                p: Address,
            |
                !(o == caller && p == operator) ==> final(self).op_of(o, p) == old(self).op_of(
                    o,
                    p,
                )) && (forall|o: Address, i: U256|
                final(self).bal_of(o, i) == old(self).bal_of(o, i)) && (forall|
                o: Address,
                s: Address,
                i: U256,
            | final(self).allow_of(o, s, i) == old(self).allow_of(o, s, i)),
            r is Err ==> *final(self) == *old(self),
    ;

    /// Moves `amount` of `id` from `caller` to `to`: `caller` is
    /// debited and `to` credited by exactly `amount`, every other
    /// balance, every allowance, and every flag keeps its value, and
    /// a self-transfer changes nothing.
    fn transfer(&mut self, caller: Address, to: Address, id: U256, amount: U256) -> (r: Result<
        bool,
        Error,
    >)
        ensures
            r == (if caller.spec_is_zero() {
                Err::<bool, Error>(Error::InvalidSender)
            } else if to.spec_is_zero() {
                Err::<bool, Error>(Error::InvalidReceiver)
            } else if old(self).bal_of(caller, id) < amount.as_nat() {
                Err::<bool, Error>(Error::InsufficientBalance)
            } else if caller != to && old(self).bal_of(to, id) + amount.as_nat() > u256_max() {
                Err::<bool, Error>(Error::ArithmeticOverflow)
            } else {
                Ok::<bool, Error>(true)
            }),
            r is Ok ==> final(self).bal_of(to, id) == (if caller == to {
                old(self).bal_of(to, id) as int
            } else {
                old(self).bal_of(to, id) + amount.as_nat() as int
            }) && final(self).bal_of(caller, id) == (if caller == to {
                old(self).bal_of(caller, id) as int
            } else {
                old(self).bal_of(caller, id) - amount.as_nat() as int
            }) && (forall|o: Address, i: U256|
                !(o == caller && i == id) && !(o == to && i == id) ==> final(self).bal_of(o, i)
                    == old(self).bal_of(o, i)) && (forall|o: Address, s: Address, i: U256|
                final(self).allow_of(o, s, i) == old(self).allow_of(o, s, i)) && (forall|
                o: Address,
                p: Address,
            | final(self).op_of(o, p) == old(self).op_of(o, p)),
            r is Err ==> *final(self) == *old(self),
    ;

    /// Moves `amount` of `id` from `from` to `to` on behalf of
    /// `caller`, under the operator-or-allowance rule: an operator
    /// consumes no allowance, any other caller has its allowance
    /// decremented by exactly the moved amount.
    fn transfer_from(
        &mut self,
        caller: Address,
        from: Address,
        to: Address,
        id: U256,
        amount: U256,
    ) -> (r: Result<bool, Error>)
        ensures
            r == (if from.spec_is_zero() {
                Err::<bool, Error>(Error::InvalidSender)
            } else if to.spec_is_zero() {
                Err::<bool, Error>(Error::InvalidReceiver)
            } else if caller.spec_is_zero() {
                Err::<bool, Error>(Error::InvalidSpender)
            } else if !old(self).op_of(from, caller) && old(self).allow_of(from, caller, id)
                < amount.as_nat() {
                Err::<bool, Error>(Error::InsufficientAllowance)
            } else if old(self).bal_of(from, id) < amount.as_nat() {
                Err::<bool, Error>(Error::InsufficientBalance)
            } else if from != to && old(self).bal_of(to, id) + amount.as_nat() > u256_max() {
                Err::<bool, Error>(Error::ArithmeticOverflow)
            } else {
                Ok::<bool, Error>(true)
            }),
            r is Ok ==> final(self).bal_of(to, id) == (if from == to {
                old(self).bal_of(to, id) as int
            } else {
                old(self).bal_of(to, id) + amount.as_nat() as int
            }) && final(self).bal_of(from, id) == (if from == to {
                old(self).bal_of(from, id) as int
            } else {
                old(self).bal_of(from, id) - amount.as_nat() as int
            }) && (forall|o: Address, i: U256|
                !(o == from && i == id) && !(o == to && i == id) ==> final(self).bal_of(o, i)
                    == old(self).bal_of(o, i)) && (forall|o: Address, p: Address|
                final(self).op_of(o, p) == old(self).op_of(o, p)) && (old(self).op_of(from, caller)
                ==> (forall|o: Address, s: Address, i: U256|
                    final(self).allow_of(o, s, i) == old(self).allow_of(o, s, i))) && (!old(
                self,
            ).op_of(from, caller) ==> final(self).allow_of(from, caller, id) == old(self).allow_of(
                from,
                caller,
                id,
            ) - amount.as_nat() && (forall|o: Address, s: Address, i: U256|
                !(o == from && s == caller && i == id) ==> final(self).allow_of(o, s, i) == old(
                    self,
                ).allow_of(o, s, i))),
            r is Err ==> *final(self) == *old(self),
    ;
}

/// No allowance differs between `pre` and `post`, seen through the
/// interface.
pub open spec fn iallows_unchanged<T: IErc6909>(pre: &T, post: &T) -> bool {
    forall|o: Address, s: Address, i: U256| post.allow_of(o, s, i) == pre.allow_of(o, s, i)
}

/// No operator flag differs between `pre` and `post`, seen through
/// the interface.
pub open spec fn iops_unchanged<T: IErc6909>(pre: &T, post: &T) -> bool {
    forall|o: Address, p: Address| post.op_of(o, p) == pre.op_of(o, p)
}

/// Supply-tracking capability: a per-identifier running total of
/// minted-minus-burned amount.
pub trait IErc6909Supply: Sized {
    /// The running total for `id`, as the implementor models it.
    spec fn sup_of(&self, id: U256) -> nat;

    /// The running minted-minus-burned total for `id`; zero for an
    /// identifier never minted.
    fn total_supply(&self, id: U256) -> (r: U256)
        ensures
            r.as_nat() == self.sup_of(id),
    ;
}

/// The outcome of a mint, decided through the interfaces.
pub open spec fn imint_result<T: IErc6909 + IErc6909Supply>(
    s: &T,
    caller: Address,
    to: Address,
    id: U256,
    amount: U256,
) -> Result<(), Error> {
    if caller.spec_is_zero() {
        Err(Error::InvalidApprover)
    } else if to.spec_is_zero() {
        Err(Error::InvalidReceiver)
    } else if s.sup_of(id) + amount.as_nat() > u256_max() {
        Err(Error::ArithmeticOverflow)
    } else if s.bal_of(to, id) + amount.as_nat() > u256_max() {
        Err(Error::ArithmeticOverflow)
    } else {
        Ok(())
    }
}

/// The outcome of a burn, decided through the interfaces.
pub open spec fn iburn_result<T: IErc6909>(
    s: &T,
    caller: Address,
    from: Address,
    id: U256,
    amount: U256,
) -> Result<(), Error> {
    if caller.spec_is_zero() {
        Err(Error::InvalidApprover)
    } else if from.spec_is_zero() {
        Err(Error::InvalidSender)
    } else if s.bal_of(from, id) < amount.as_nat() {
        Err(Error::InsufficientBalance)
    } else {
        Ok(())
    }
}

/// Minting capability, layered over the ledger and supply views: a
/// mint credits one balance and the supply counter by the same
/// amount, or fails before either is touched.
pub trait IErc6909Mintable: IErc6909 + IErc6909Supply {
    /// Creates `amount` of `id` in `to`'s balance, growing the supply
    /// counter for `id` by the same amount.
    fn mint(&mut self, caller: Address, to: Address, id: U256, amount: U256) -> (r: Result<
        (),
        Error,
    >)
        ensures
            r == imint_result(old(self), caller, to, id, amount),
            r is Ok ==> final(self).bal_of(to, id) == old(self).bal_of(to, id) + amount.as_nat()
                && (forall|o: Address, i: U256|
                !(o == to && i == id) ==> final(self).bal_of(o, i) == old(self).bal_of(o, i))
                && final(self).sup_of(id) == old(self).sup_of(id) + amount.as_nat() && (forall|
                i: U256,
            | i != id ==> final(self).sup_of(i) == old(self).sup_of(i)) && iallows_unchanged(
                old(self),
                final(self),
            ) && iops_unchanged(old(self), final(self)),
            r is Err ==> *final(self) == *old(self),
    ;
}

/// Burning capability, layered over the ledger and supply views: a
/// burn debits one balance and shrinks the supply counter, flooring
/// the counter at zero.
pub trait IErc6909Burnable: IErc6909 + IErc6909Supply {
    /// Destroys `amount` of `id` out of `from`'s balance, shrinking
    /// the supply counter for `id`.
    fn burn(&mut self, caller: Address, from: Address, id: U256, amount: U256) -> (r: Result<
        (),
        Error,
    >)
        ensures
            r == iburn_result(old(self), caller, from, id, amount),
            r is Ok ==> final(self).bal_of(from, id) == old(self).bal_of(from, id)
                - amount.as_nat() && (forall|o: Address, i: U256|
                !(o == from && i == id) ==> final(self).bal_of(o, i) == old(self).bal_of(o, i))
                && final(self).sup_of(id) == (if amount.as_nat() <= old(self).sup_of(id) {
                old(self).sup_of(id) - amount.as_nat()
            } else {
                0
            }) && (forall|i: U256| i != id ==> final(self).sup_of(i) == old(self).sup_of(i))
                && iallows_unchanged(old(self), final(self)) && iops_unchanged(
                old(self),
                final(self),
            ),
            r is Err ==> *final(self) == *old(self),
    ;
}

/// Metadata capability: an arbitrary-length byte string per
/// identifier, overwritten whole on each set.
pub trait IErc6909MetadataUri: Sized {
    /// The byte string stored for `id`, as the implementor models it.
    spec fn uri_of(&self, id: U256) -> Seq<u8>;

    /// The byte string stored for `id`, byte for byte; empty where
    /// none was ever set.
    fn token_uri(&self, id: U256) -> (r: Vec<u8>)
        ensures
            r@ == self.uri_of(id),
    ;

    /// Stores `uri` as the byte string of `id`, fully overwriting any
    /// previous content; any non-zero caller may set metadata for any
    /// identifier.
    fn set_token_uri(&mut self, caller: Address, id: U256, uri: Vec<u8>) -> (r: Result<bool, Error>)
        ensures
            r == (if caller.spec_is_zero() {
                Err::<bool, Error>(Error::InvalidApprover)
            } else {
                Ok::<bool, Error>(true)
            }),
            r is Ok ==> final(self).uri_of(id) == uri@ && (forall|i2: U256|
                i2 != id ==> final(self).uri_of(i2) == old(self).uri_of(i2)),
            r is Err ==> *final(self) == *old(self),
    ;
}

/// Enumeration capability: the identifiers ever recorded, in
/// insertion order.
pub trait IErc6909Enumerable: Sized {
    /// The recorded identifiers in insertion order, as the
    /// implementor models them.
    spec fn ids_of(&self) -> Seq<U256>;

    /// The number of identifiers ever recorded.
    fn total_ids(&self) -> (r: U256)
        ensures
            r.as_nat() == self.ids_of().len(),
    ;

    /// The identifier at `index` in insertion order, or the zero
    /// identifier where `index` is out of range.
    fn id_by_index(&self, index: U256) -> (r: U256)
        ensures
            index.as_nat() < self.ids_of().len() ==> r == self.ids_of()[index.as_nat() as int],
            index.as_nat() >= self.ids_of().len() ==> r == U256::spec_zero(),
    ;
}

} // verus!
