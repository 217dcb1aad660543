use vstd::prelude::*;

use crate::address::Address;
use crate::enumerable::{record_post, Erc6909Enumerable};
use crate::erc6909::{
    approve_post, approve_result, burn_post, burn_result, mint_post, set_operator_post,
    set_operator_result, transfer_from_post, transfer_from_result, transfer_post,
    transfer_result, Erc6909,
};
use crate::error::Error;
use crate::metadata_uri::{set_uri_post, Erc6909MetadataUri};
use crate::token_supply::{supplies_unchanged, supply_mint_result, Erc6909Supply};
use crate::u256::U256;

verus! {

/// The deployable unit: the core ledger with its supply tracker, the
/// identifier registry, and the metadata store, behind one interface.
///
/// Every operation is dispatched to the owning component; the two
/// operations that touch several components — mint and burn — are
/// all-or-nothing: every check of every component runs before the
/// first write, so a failure leaves no partial state behind.
pub struct MyToken {
    supply: Erc6909Supply,
    enumerable: Erc6909Enumerable,
    metadata: Erc6909MetadataUri,
}

impl MyToken {
    /// The supply tracker with the wrapped core ledger, as a
    /// specification value.
    pub closed spec fn tracker(self) -> Erc6909Supply {
        self.supply
    }

    /// The core ledger, as a specification value; balance, allowance,
    /// and operator contracts are stated over it.
    pub open spec fn ledger(self) -> Erc6909 {
        self.tracker().ledger()
    }

    /// The identifier registry, as a specification value.
    pub closed spec fn registry(self) -> Erc6909Enumerable {
        self.enumerable
    }

    /// The metadata store, as a specification value.
    pub closed spec fn meta(self) -> Erc6909MetadataUri {
        self.metadata
    }

    /// Cross-component consistency: the supply counters agree with the
    /// summed balances, and the registry's two structures agree with
    /// each other. Established at construction and preserved by every
    /// operation.
    pub open spec fn wf(self) -> bool {
        &&& self.tracker().supply_consistent()
        &&& self.registry().wf()
    }

    /// A fresh token: empty ledger, zero supplies, no recorded
    /// identifiers, no metadata.
    pub fn new() -> (r: MyToken)
        ensures
            forall|o: Address, i: U256| r.ledger().bal(o, i) == 0,
            forall|o: Address, s: Address, i: U256| r.ledger().allow(o, s, i) == 0,
            forall|o: Address, p: Address| !r.ledger().op(o, p),
            forall|i: U256| r.tracker().sup(i) == 0,
            r.registry().ids().len() == 0,
            forall|i: U256| r.meta().uri(i) == Seq::<u8>::empty(),
            r.wf(),
    {
        MyToken {
            supply: Erc6909Supply::new(),
            enumerable: Erc6909Enumerable::new(),
            metadata: Erc6909MetadataUri::new(),
        }
    }

    /// The balance of `owner` for `id`.
    pub fn balance_of(&self, owner: Address, id: U256) -> (r: U256)
        ensures
            r.as_nat() == self.ledger().bal(owner, id),
    {
        self.supply.balance_of(owner, id)
    }

    /// The allowance of (`owner`, `spender`) for `id`.
    pub fn allowance(&self, owner: Address, spender: Address, id: U256) -> (r: U256)
        ensures
            r.as_nat() == self.ledger().allow(owner, spender, id),
    {
        self.supply.allowance(owner, spender, id)
    }

    /// Whether `operator` is a blanket operator for `owner`.
    pub fn is_operator(&self, owner: Address, operator: Address) -> (r: bool)
        ensures
            r == self.ledger().op(owner, operator),
    {
        self.supply.is_operator(owner, operator)
    }

    /// Sets the allowance of (`caller`, `spender`) for `id` to exactly
    /// `amount`.
    pub fn approve(&mut self, caller: Address, spender: Address, id: U256, amount: U256) -> (r:
        Result<bool, Error>)
        ensures
            r == approve_result(caller, spender),
            r is Ok ==> approve_post(
                old(self).ledger(),
                final(self).ledger(),
                caller,
                spender,
                id,
                amount.as_nat(),
            ) && supplies_unchanged(old(self).tracker(), final(self).tracker()) && final(self).registry() == old(self).registry() && final(self).meta() == old(self).meta(),
            r is Err ==> *final(self) == *old(self),
            old(self).wf() ==> final(self).wf(),
    {
        self.supply.approve(caller, spender, id, amount)
    }

    /// Sets or clears the blanket-operator flag of (`caller`,
    /// `operator`).
    pub fn set_operator(&mut self, caller: Address, operator: Address, approved: bool) -> (r:
        Result<bool, Error>)
        ensures
            r == set_operator_result(caller, operator),
            r is Ok ==> set_operator_post(
                old(self).ledger(),
                final(self).ledger(),
                caller,
                operator,
                approved,
            ) && supplies_unchanged(old(self).tracker(), final(self).tracker()) && final(self).registry() == old(self).registry() && final(self).meta() == old(self).meta(),
            r is Err ==> *final(self) == *old(self),
            old(self).wf() ==> final(self).wf(),
    {
        self.supply.set_operator(caller, operator, approved)
    }

    /// Moves `amount` of `id` from `caller` to `to`.
    pub fn transfer(&mut self, caller: Address, to: Address, id: U256, amount: U256) -> (r: Result<
        bool,
        Error,
    >)
        ensures
            r == transfer_result(old(self).ledger(), caller, to, id, amount),
            r is Ok ==> transfer_post(
                old(self).ledger(),
                final(self).ledger(),
                caller,
                to,
                id,
                amount.as_nat(),
            ) && supplies_unchanged(old(self).tracker(), final(self).tracker()) && final(self).registry() == old(self).registry() && final(self).meta() == old(self).meta(),
            r is Err ==> *final(self) == *old(self),
            old(self).wf() ==> final(self).wf(),
    {
        self.supply.transfer(caller, to, id, amount)
    }

    /// Moves `amount` of `id` from `from` to `to` on behalf of
    /// `caller`, under the operator-or-allowance rule.
    pub fn transfer_from(
        &mut self,
        caller: Address,
        from: Address,
        to: Address,
        id: U256,
        amount: U256,
    ) -> (r: Result<bool, Error>)
        ensures
            r == transfer_from_result(old(self).ledger(), caller, from, to, id, amount),
            r is Ok ==> transfer_from_post(
                old(self).ledger(),
                final(self).ledger(),
                caller,
                from,
                to,
                id,
                amount.as_nat(),
            ) && supplies_unchanged(old(self).tracker(), final(self).tracker()) && final(self).registry() == old(self).registry() && final(self).meta() == old(self).meta(),
            r is Err ==> *final(self) == *old(self),
            old(self).wf() ==> final(self).wf(),
    {
        self.supply.transfer_from(caller, from, to, id, amount)
    }

    /// Mints `amount` of `id` into `to`, growing the supply counter
    /// and recording `id` in the registry — one logical unit: if any
    /// check fails, no component changes.
    pub fn mint(&mut self, caller: Address, to: Address, id: U256, amount: U256) -> (r: Result<
        (),
        Error,
    >)
        ensures
            r == supply_mint_result(old(self).tracker(), caller, to, id, amount),
            r is Ok ==> mint_post(
                old(self).ledger(),
                final(self).ledger(),
                to,
                id,
                amount.as_nat(),
            ) && final(self).tracker().sup(id) == old(self).tracker().sup(id) + amount.as_nat() && (
            forall|i: U256|
                i != id ==> final(self).tracker().sup(i) == old(self).tracker().sup(i))
                && record_post(old(self).registry(), final(self).registry(), id) && final(self).meta() == old(self).meta(),
            r is Err ==> *final(self) == *old(self),
            old(self).wf() ==> final(self).wf(),
    {
        match self.supply.mint(caller, to, id, amount) {
            Ok(()) => {
                self.enumerable._record_id(id);
                Ok(())
            },
            Err(e) => Err(e),
        }
    }

    /// Burns `amount` of `id` out of `from`, shrinking the supply
    /// counter; the registry keeps the identifier — burning never
    /// unrecords.
    pub fn burn(&mut self, caller: Address, from: Address, id: U256, amount: U256) -> (r: Result<
        (),
        Error,
    >)
        ensures
            r == burn_result(old(self).ledger(), caller, from, id, amount),
            r is Ok ==> burn_post(
                old(self).ledger(),
                final(self).ledger(),
                from,
                id,
                amount.as_nat(),
            ) && final(self).tracker().sup(id) == (if amount.as_nat() <= old(self).tracker().sup(
                id,
            ) {
                old(self).tracker().sup(id) - amount.as_nat()
            } else {
                0
            }) && (forall|i: U256|
                i != id ==> final(self).tracker().sup(i) == old(self).tracker().sup(i)) && final(self).registry() == old(self).registry() && final(self).meta() == old(self).meta(),
            r is Err ==> *final(self) == *old(self),
            old(self).wf() ==> final(self).wf(),
    {
        self.supply.burn(caller, from, id, amount)
    }

    /// The number of identifiers ever recorded.
    pub fn total_ids(&self) -> (r: U256)
        ensures
            r.as_nat() == self.registry().ids().len(),
    {
        self.enumerable.total_ids()
    }

    /// The identifier at `index` in insertion order, or the zero
    /// identifier where `index` is out of range.
    pub fn id_by_index(&self, index: U256) -> (r: U256)
        ensures
            index.as_nat() < self.registry().ids().len() ==> r == self.registry().ids()[index.as_nat() as int],
            index.as_nat() >= self.registry().ids().len() ==> r == U256::spec_zero(),
    {
        self.enumerable.id_by_index(index)
    }

    /// The metadata bytes of `id`, byte for byte; empty where none
    /// were ever set.
    pub fn token_uri(&self, id: U256) -> (r: Vec<u8>)
        ensures
            r@ == self.meta().uri(id),
    {
        self.metadata.token_uri(id)
    }

    /// Stores `uri` as the metadata bytes of `id`, fully overwriting
    /// any previous content.
    pub fn set_token_uri(&mut self, caller: Address, id: U256, uri: Vec<u8>) -> (r: Result<
        bool,
        Error,
    >)
        ensures
            r == (if caller.spec_is_zero() {
                Err::<bool, Error>(Error::InvalidApprover)
            } else {
                Ok::<bool, Error>(true)
            }),
            r is Ok ==> set_uri_post(old(self).meta(), final(self).meta(), id, uri@) && final(self).tracker() == old(self).tracker() && final(self).registry() == old(self).registry(),
            r is Err ==> *final(self) == *old(self),
            old(self).wf() ==> final(self).wf(),
    {
        self.metadata.set_token_uri(caller, id, uri)
    }

    /// The running minted-minus-burned total for `id`.
    pub fn total_supply(&self, id: U256) -> (r: U256)
        ensures
            r.as_nat() == self.tracker().sup(id),
    {
        self.supply.total_supply(id)
    }
}


impl crate::traits::IErc6909 for MyToken {
    open spec fn bal_of(&self, owner: Address, id: U256) -> nat {
        self.ledger().bal(owner, id)
    }

    open spec fn allow_of(&self, owner: Address, spender: Address, id: U256) -> nat {
        self.ledger().allow(owner, spender, id)
    }

    open spec fn op_of(&self, owner: Address, operator: Address) -> bool {
        self.ledger().op(owner, operator)
    }

    fn balance_of(&self, owner: Address, id: U256) -> (r: U256) {
        MyToken::balance_of(self, owner, id)
    }

    fn allowance(&self, owner: Address, spender: Address, id: U256) -> (r: U256) {
        MyToken::allowance(self, owner, spender, id)
    }

    fn is_operator(&self, owner: Address, operator: Address) -> (r: bool) {
        MyToken::is_operator(self, owner, operator)
    }

    fn approve(&mut self, caller: Address, spender: Address, id: U256, amount: U256) -> (r: Result<
        bool,
        Error,
    >) {
        MyToken::approve(self, caller, spender, id, amount)
    }

    fn set_operator(&mut self, caller: Address, operator: Address, approved: bool) -> (r: Result<
        bool,
        Error,
    >) {
        MyToken::set_operator(self, caller, operator, approved)
    }

    fn transfer(&mut self, caller: Address, to: Address, id: U256, amount: U256) -> (r: Result<
        bool,
        Error,
    >) {
        MyToken::transfer(self, caller, to, id, amount)
    }

    fn transfer_from(
        &mut self,
        caller: Address,
        from: Address,
        to: Address,
        id: U256,
        amount: U256,
    ) -> (r: Result<bool, Error>) {
        MyToken::transfer_from(self, caller, from, to, id, amount)
    }
}

impl crate::traits::IErc6909Supply for MyToken {
    open spec fn sup_of(&self, id: U256) -> nat {
        self.tracker().sup(id)
    }

    fn total_supply(&self, id: U256) -> (r: U256) {
        MyToken::total_supply(self, id)
    }
}

impl crate::traits::IErc6909Mintable for MyToken {
    fn mint(&mut self, caller: Address, to: Address, id: U256, amount: U256) -> (r: Result<
        (),
        Error,
    >) {
        MyToken::mint(self, caller, to, id, amount)
    }
}

impl crate::traits::IErc6909Burnable for MyToken {
    fn burn(&mut self, caller: Address, from: Address, id: U256, amount: U256) -> (r: Result<
        (),
        Error,
    >) {
        MyToken::burn(self, caller, from, id, amount)
    }
}

impl crate::traits::IErc6909MetadataUri for MyToken {
    open spec fn uri_of(&self, id: U256) -> Seq<u8> {
        self.meta().uri(id)
    }

    fn token_uri(&self, id: U256) -> (r: Vec<u8>) {
        MyToken::token_uri(self, id)
    }

    fn set_token_uri(&mut self, caller: Address, id: U256, uri: Vec<u8>) -> (r: Result<
        bool,
        Error,
    >) {
        MyToken::set_token_uri(self, caller, id, uri)
    }
}

impl crate::traits::IErc6909Enumerable for MyToken {
    open spec fn ids_of(&self) -> Seq<U256> {
        self.registry().ids()
    }

    fn total_ids(&self) -> (r: U256) {
        MyToken::total_ids(self)
    }

    fn id_by_index(&self, index: U256) -> (r: U256) {
        MyToken::id_by_index(self, index)
    }
}

} // verus!
