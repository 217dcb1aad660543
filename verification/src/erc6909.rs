use vstd::prelude::*;

use crate::address::Address;
use crate::error::Error;
use crate::table::{Key, Table};
use crate::u256::{u256_max, U256};

verus! {

/// The key of the balance record of `owner` for `id`.
pub open spec fn bal_key(owner: Address, id: U256) -> Key {
    Key { a: owner, b: Address::spec_zero(), c: id }
}

/// The key of the allowance record of (`owner`, `spender`) for `id`.
pub open spec fn allow_key(owner: Address, spender: Address, id: U256) -> Key {
    Key { a: owner, b: spender, c: id }
}

/// The key of the blanket-operator flag of (`owner`, `operator`).
pub open spec fn op_key(owner: Address, operator: Address) -> Key {
    Key { a: owner, b: operator, c: U256::spec_zero() }
}

/// The core ledger: per-(owner, identifier) balances, per-(owner,
/// spender, identifier) allowances, and per-(owner, operator)
/// blanket-operator flags, each in its own storage region.
///
/// Absent keys read as zero or false; every mutating operation
/// validates all of its preconditions before touching any region, so a
/// failed operation leaves the ledger exactly as it was.
pub struct Erc6909 {
    balances: Table,
    allowances: Table,
    operators: Table,
}

impl Erc6909 {
    /// The balance of `owner` for `id`.
    pub closed spec fn bal(self, owner: Address, id: U256) -> nat {
        self.balances.spec_get(bal_key(owner, id))
    }

    /// How much of `owner`'s balance of `id` `spender` may move.
    pub closed spec fn allow(self, owner: Address, spender: Address, id: U256) -> nat {
        self.allowances.spec_get(allow_key(owner, spender, id))
    }

    /// Whether `operator` may move any of `owner`'s balances without
    /// consuming allowance.
    pub closed spec fn op(self, owner: Address, operator: Address) -> bool {
        self.operators.spec_get(op_key(owner, operator)) != 0
    }

    /// The balance of `id` summed over every owner.
    pub closed spec fn bal_sum(self, id: U256) -> nat {
        self.balances.spec_sum(id)
    }

    /// The authorization rule for a transfer-from: the caller is a
    /// blanket operator for the owner, or holds enough allowance.
    pub open spec fn may_move(self, caller: Address, from: Address, id: U256, amount: nat) -> bool {
        self.op(from, caller) || self.allow(from, caller, id) >= amount
    }
}

/// The outcome of an approve: the only failures are a zero approver or
/// a zero spender.
pub open spec fn approve_result(caller: Address, spender: Address) -> Result<bool, Error> {
    if caller.spec_is_zero() {
        Err(Error::InvalidApprover)
    } else if spender.spec_is_zero() {
        Err(Error::InvalidSpender)
    } else {
        Ok(true)
    }
}

/// The outcome of a set-operator: the same zero-address checks as an
/// approve.
pub open spec fn set_operator_result(caller: Address, operator: Address) -> Result<bool, Error> {
    if caller.spec_is_zero() {
        Err(Error::InvalidApprover)
    } else if operator.spec_is_zero() {
        Err(Error::InvalidSpender)
    } else {
        Ok(true)
    }
}

/// The outcome of a transfer of `amount` of `id` from `caller` to
/// `to`, decided against the pre-state `s`.
pub open spec fn transfer_result(
    s: Erc6909,
    caller: Address,
    to: Address,
    id: U256,
    amount: U256,
) -> Result<bool, Error> {
    if caller.spec_is_zero() {
        Err(Error::InvalidSender)
    } else if to.spec_is_zero() {
        Err(Error::InvalidReceiver)
    } else if s.bal(caller, id) < amount.as_nat() {
        Err(Error::InsufficientBalance)
    } else if caller != to && s.bal(to, id) + amount.as_nat() > u256_max() {
        Err(Error::ArithmeticOverflow)
    } else {
        Ok(true)
    }
}

/// The outcome of a transfer-from, decided against the pre-state `s`:
/// the zero-address and balance checks of a transfer with `from` as
/// the balance source, plus the authorization rule for `caller`.
pub open spec fn transfer_from_result(
    s: Erc6909,
    caller: Address,
    from: Address,
    to: Address,
    id: U256,
    amount: U256,
) -> Result<bool, Error> {
    if from.spec_is_zero() {
        Err(Error::InvalidSender)
    } else if to.spec_is_zero() {
        Err(Error::InvalidReceiver)
    } else if caller.spec_is_zero() {
        Err(Error::InvalidSpender)
    } else if !s.may_move(caller, from, id, amount.as_nat()) {
        Err(Error::InsufficientAllowance)
    } else if s.bal(from, id) < amount.as_nat() {
        Err(Error::InsufficientBalance)
    } else if from != to && s.bal(to, id) + amount.as_nat() > u256_max() {
        Err(Error::ArithmeticOverflow)
    } else {
        Ok(true)
    }
}

/// The outcome of a mint of `amount` of `id` into `to`, decided
/// against the pre-state `s`.
pub open spec fn mint_result(
    s: Erc6909,
    caller: Address,
    to: Address,
    id: U256,
    amount: U256,
) -> Result<(), Error> {
    if caller.spec_is_zero() {
        Err(Error::InvalidApprover)
    } else if to.spec_is_zero() {
        Err(Error::InvalidReceiver)
    } else if s.bal(to, id) + amount.as_nat() > u256_max() {
        Err(Error::ArithmeticOverflow)
    } else {
        Ok(())
    }
}

/// The outcome of a burn of `amount` of `id` out of `from`, decided
/// against the pre-state `s`.
pub open spec fn burn_result(
    s: Erc6909,
    caller: Address,
    from: Address,
    id: U256,
    amount: U256,
) -> Result<(), Error> {
    if caller.spec_is_zero() {
        Err(Error::InvalidApprover)
    } else if from.spec_is_zero() {
        Err(Error::InvalidSender)
    } else if s.bal(from, id) < amount.as_nat() {
        Err(Error::InsufficientBalance)
    } else {
        Ok(())
    }
}

/// No balance differs between `pre` and `post`.
pub open spec fn balances_unchanged(pre: Erc6909, post: Erc6909) -> bool {
    forall|o: Address, i: U256| post.bal(o, i) == pre.bal(o, i)
}

/// No allowance differs between `pre` and `post`.
pub open spec fn allowances_unchanged(pre: Erc6909, post: Erc6909) -> bool {
    forall|o: Address, s: Address, i: U256| post.allow(o, s, i) == pre.allow(o, s, i)
}

/// No operator flag differs between `pre` and `post`.
pub open spec fn operators_unchanged(pre: Erc6909, post: Erc6909) -> bool {
    forall|o: Address, p: Address| post.op(o, p) == pre.op(o, p)
}

/// No per-identifier balance sum differs between `pre` and `post`.
pub open spec fn sums_unchanged(pre: Erc6909, post: Erc6909) -> bool {
    forall|i: U256| post.bal_sum(i) == pre.bal_sum(i)
}

/// How a successful movement of `amount` of `id` from `from` to `to`
/// rewrites the balances: `from` is debited, `to` is credited, every
/// other balance keeps its value, and a self-movement changes nothing.
pub open spec fn balances_moved(
    pre: Erc6909,
    post: Erc6909,
    from: Address,
    to: Address,
    id: U256,
    amount: nat,
) -> bool {
    &&& post.bal(to, id) == if from == to {
        pre.bal(to, id) as int
    } else {
        pre.bal(to, id) + amount as int
    }
    &&& post.bal(from, id) == if from == to {
        pre.bal(from, id) as int
    } else {
        pre.bal(from, id) - amount as int
    }
    &&& forall|o: Address, i: U256|
        !(o == from && i == id) && !(o == to && i == id) ==> post.bal(o, i) == pre.bal(o, i)
}

/// The full effect of a successful transfer: balances move, the
/// per-identifier sums are preserved, and allowances and operator
/// flags are untouched.
pub open spec fn transfer_post(
    pre: Erc6909,
    post: Erc6909,
    caller: Address,
    to: Address,
    id: U256,
    amount: nat,
) -> bool {
    &&& balances_moved(pre, post, caller, to, id, amount)
    &&& sums_unchanged(pre, post)
    &&& allowances_unchanged(pre, post)
    &&& operators_unchanged(pre, post)
}

/// The full effect of a successful transfer-from: balances move as in
/// a transfer out of `from`; an operator consumes no allowance, while
/// any other caller has its allowance decremented by exactly the moved
/// amount; everything else is untouched.
pub open spec fn transfer_from_post(
    pre: Erc6909,
    post: Erc6909,
    caller: Address,
    from: Address,
    to: Address,
    id: U256,
    amount: nat,
) -> bool {
    &&& balances_moved(pre, post, from, to, id, amount)
    &&& sums_unchanged(pre, post)
    &&& operators_unchanged(pre, post)
    &&& pre.op(from, caller) ==> allowances_unchanged(pre, post)
    &&& !pre.op(from, caller) ==> {
        &&& post.allow(from, caller, id) == pre.allow(from, caller, id) - amount
        &&& forall|o: Address, s: Address, i: U256|
            !(o == from && s == caller && i == id) ==> post.allow(o, s, i) == pre.allow(o, s, i)
    }
}

/// The full effect of a successful mint: `to` is credited, the sum for
/// `id` grows by the same amount, everything else is untouched.
pub open spec fn mint_post(
    pre: Erc6909,
    post: Erc6909,
    to: Address,
    id: U256,
    amount: nat,
) -> bool {
    &&& post.bal(to, id) == pre.bal(to, id) + amount
    &&& forall|o: Address, i: U256|
        !(o == to && i == id) ==> post.bal(o, i) == pre.bal(o, i)
    &&& post.bal_sum(id) == pre.bal_sum(id) + amount
    &&& forall|i: U256| i != id ==> post.bal_sum(i) == pre.bal_sum(i)
    &&& allowances_unchanged(pre, post)
    &&& operators_unchanged(pre, post)
}

/// The full effect of a successful burn: `from` is debited, the sum
/// for `id` shrinks by the same amount, everything else is untouched.
pub open spec fn burn_post(
    pre: Erc6909,
    post: Erc6909,
    from: Address,
    id: U256,
    amount: nat,
) -> bool {
    &&& post.bal(from, id) == pre.bal(from, id) - amount
    &&& forall|o: Address, i: U256|
        !(o == from && i == id) ==> post.bal(o, i) == pre.bal(o, i)
    &&& post.bal_sum(id) == pre.bal_sum(id) - amount
    &&& forall|i: U256| i != id ==> post.bal_sum(i) == pre.bal_sum(i)
    &&& allowances_unchanged(pre, post)
    &&& operators_unchanged(pre, post)
}

/// The full effect of a successful approve: the one allowance is
/// overwritten with exactly the requested amount, everything else is
/// untouched.
pub open spec fn approve_post(
    pre: Erc6909,
    post: Erc6909,
    caller: Address,
    spender: Address,
    id: U256,
    amount: nat,
) -> bool {
    &&& post.allow(caller, spender, id) == amount
    &&& forall|o: Address, s: Address, i: U256|
        !(o == caller && s == spender && i == id) ==> post.allow(o, s, i) == pre.allow(o, s, i)
    &&& balances_unchanged(pre, post)
    &&& sums_unchanged(pre, post)
    &&& operators_unchanged(pre, post)
}

/// The full effect of a successful set-operator: the one flag is
/// overwritten, everything else is untouched.
pub open spec fn set_operator_post(
    pre: Erc6909,
    post: Erc6909,
    caller: Address,
    operator: Address,
    approved: bool,
) -> bool {
    &&& post.op(caller, operator) == approved
    &&& forall|o: Address, p: Address|
        !(o == caller && p == operator) ==> post.op(o, p) == pre.op(o, p)
    &&& balances_unchanged(pre, post)
    &&& sums_unchanged(pre, post)
    &&& allowances_unchanged(pre, post)
}

impl Erc6909 {
    /// A fresh ledger: every balance, allowance, and flag reads as
    /// zero or false.
    pub fn new() -> (r: Erc6909)
        ensures
            forall|o: Address, i: U256| r.bal(o, i) == 0,
            forall|o: Address, s: Address, i: U256| r.allow(o, s, i) == 0,
            forall|o: Address, p: Address| !r.op(o, p),
            forall|i: U256| r.bal_sum(i) == 0,
    {
        Erc6909 { balances: Table::new(), allowances: Table::new(), operators: Table::new() }
    }

    /// The balance of `owner` for `id`; zero for unknown keys.
    pub fn balance_of(&self, owner: Address, id: U256) -> (r: U256)
        ensures
            r.as_nat() == self.bal(owner, id),
    {
        self.balances.get(Key { a: owner, b: Address::zero(), c: id })
    }

    /// The allowance of (`owner`, `spender`) for `id`; zero for
    /// unknown keys.
    pub fn allowance(&self, owner: Address, spender: Address, id: U256) -> (r: U256)
        ensures
            r.as_nat() == self.allow(owner, spender, id),
    {
        self.allowances.get(Key { a: owner, b: spender, c: id })
    }

    /// Whether `operator` is a blanket operator for `owner`; false for
    /// unknown keys.
    pub fn is_operator(&self, owner: Address, operator: Address) -> (r: bool)
        ensures
            r == self.op(owner, operator),
    {
        let flag = self.operators.get(Key { a: owner, b: operator, c: U256::zero() });
        !flag.is_zero()
    }

    /// Sets the allowance of (`caller`, `spender`) for `id` to exactly
    /// `amount` — an absolute overwrite, not an increment.
    pub fn approve(&mut self, caller: Address, spender: Address, id: U256, amount: U256) -> (r:
        Result<bool, Error>)
        ensures
            r == approve_result(caller, spender),
            r is Ok ==> approve_post(*old(self), *final(self), caller, spender, id, amount.as_nat()),
            r is Err ==> *final(self) == *old(self),
    {
        if caller.is_zero() {
            return Err(Error::InvalidApprover);
        }
        if spender.is_zero() {
            return Err(Error::InvalidSpender);
        }
        self.allowances.set(Key { a: caller, b: spender, c: id }, amount);
        Ok(true)
    }

    /// Sets or clears the blanket-operator flag of (`caller`,
    /// `operator`).
    pub fn set_operator(&mut self, caller: Address, operator: Address, approved: bool) -> (r:
        Result<bool, Error>)
        ensures
            r == set_operator_result(caller, operator),
            r is Ok ==> set_operator_post(*old(self), *final(self), caller, operator, approved),
            r is Err ==> *final(self) == *old(self),
    {
        if caller.is_zero() {
            return Err(Error::InvalidApprover);
        }
        if operator.is_zero() {
            return Err(Error::InvalidSpender);
        }
        let flag = if approved {
            U256::one()
        } else {
            U256::zero()
        };
        self.operators.set(Key { a: caller, b: operator, c: U256::zero() }, flag);
        Ok(true)
    }

    /// Moves `amount` of `id` from `caller` to `to`. All checks run
    /// before any mutation, so a failed transfer changes nothing.
    pub fn transfer(&mut self, caller: Address, to: Address, id: U256, amount: U256) -> (r: Result<
        bool,
        Error,
    >)
        ensures
            r == transfer_result(*old(self), caller, to, id, amount),
            r is Ok ==> transfer_post(*old(self), *final(self), caller, to, id, amount.as_nat()),
            r is Err ==> *final(self) == *old(self),
    {
        if caller.is_zero() {
            return Err(Error::InvalidSender);
        }
        if to.is_zero() {
            return Err(Error::InvalidReceiver);
        }
        self.move_balance(caller, to, id, amount)
    }

    /// Moves `amount` of `id` from `from` to `to` on behalf of
    /// `caller`: a blanket operator moves freely, anyone else consumes
    /// allowance. Authorization is settled, and the allowance
    /// decremented, strictly before any balance moves.
    pub fn transfer_from(
        &mut self,
        caller: Address,
        from: Address,
        to: Address,
        id: U256,
        amount: U256,
    ) -> (r: Result<bool, Error>)
        ensures
            r == transfer_from_result(*old(self), caller, from, to, id, amount),
            r is Ok ==> transfer_from_post(
                *old(self),
                *final(self),
                caller,
                from,
                to,
                id,
                amount.as_nat(),
            ),
            r is Err ==> *final(self) == *old(self),
    {
        if from.is_zero() {
            return Err(Error::InvalidSender);
        }
        if to.is_zero() {
            return Err(Error::InvalidReceiver);
        }
        if caller.is_zero() {
            return Err(Error::InvalidSpender);
        }
        if !self.is_operator(from, caller) {
            let granted = self.allowance(from, caller, id);
            if granted.lt(amount) {
                return Err(Error::InsufficientAllowance);
            }
            // The balance and overflow checks must precede the
            // allowance decrement, or a failure after it would leave a
            // partial mutation behind.
            let bal_from = self.balance_of(from, id);
            if bal_from.lt(amount) {
                return Err(Error::InsufficientBalance);
            }
            if from != to {
                let bal_to = self.balance_of(to, id);
                if bal_to.checked_add(amount).is_none() {
                    return Err(Error::ArithmeticOverflow);
                }
            }
            let remaining = granted.checked_sub(amount).unwrap();
            self.allowances.set(Key { a: from, b: caller, c: id }, remaining);
        }
        self.move_balance(from, to, id, amount)
    }

    /// Creates `amount` of `id` in `to`'s balance out of nothing. An
    /// internal primitive: it is reached through the extensions and
    /// the composite, which additionally keep supply and enumeration
    /// state.
    pub fn mint(&mut self, caller: Address, to: Address, id: U256, amount: U256) -> (r: Result<
        (),
        Error,
    >)
        ensures
            r == mint_result(*old(self), caller, to, id, amount),
            r is Ok ==> mint_post(*old(self), *final(self), to, id, amount.as_nat()),
            r is Err ==> *final(self) == *old(self),
    {
        if caller.is_zero() {
            return Err(Error::InvalidApprover);
        }
        if to.is_zero() {
            return Err(Error::InvalidReceiver);
        }
        let key = Key { a: to, b: Address::zero(), c: id };
        let bal_to = self.balances.get(key);
        let credited = match bal_to.checked_add(amount) {
            Some(v) => v,
            None => {
                return Err(Error::ArithmeticOverflow);
            },
        };
        self.balances.set(key, credited);
        Ok(())
    }

    /// Destroys `amount` of `id` out of `from`'s balance. An internal
    /// primitive, like `mint`.
    pub fn burn(&mut self, caller: Address, from: Address, id: U256, amount: U256) -> (r: Result<
        (),
        Error,
    >)
        ensures
            r == burn_result(*old(self), caller, from, id, amount),
            r is Ok ==> burn_post(*old(self), *final(self), from, id, amount.as_nat()),
            r is Err ==> *final(self) == *old(self),
    {
        if caller.is_zero() {
            return Err(Error::InvalidApprover);
        }
        if from.is_zero() {
            return Err(Error::InvalidSender);
        }
        let key = Key { a: from, b: Address::zero(), c: id };
        let bal_from = self.balances.get(key);
        let debited = match bal_from.checked_sub(amount) {
            Some(v) => v,
            None => {
                return Err(Error::InsufficientBalance);
            },
        };
        self.balances.set(key, debited);
        Ok(())
    }

    /// The shared debit-and-credit step of transfer and transfer-from:
    /// checks the balance and the receiver's headroom, then commits
    /// both balance writes.
    fn move_balance(&mut self, from: Address, to: Address, id: U256, amount: U256) -> (r: Result<
        bool,
        Error,
    >)
        ensures
            r == (if old(self).bal(from, id) < amount.as_nat() {
                Err::<bool, Error>(Error::InsufficientBalance)
            } else if from != to && old(self).bal(to, id) + amount.as_nat() > u256_max() {
                Err::<bool, Error>(Error::ArithmeticOverflow)
            } else {
                Ok::<bool, Error>(true)
            }),
            r is Ok ==> balances_moved(*old(self), *final(self), from, to, id, amount.as_nat())
                && sums_unchanged(*old(self), *final(self)) && allowances_unchanged(
                *old(self),
                *final(self),
            ) && operators_unchanged(*old(self), *final(self)),
            r is Err ==> *final(self) == *old(self),
    {
        let key_from = Key { a: from, b: Address::zero(), c: id };
        let key_to = Key { a: to, b: Address::zero(), c: id };
        let bal_from = self.balances.get(key_from);
        let debited = match bal_from.checked_sub(amount) {
            Some(v) => v,
            None => {
                return Err(Error::InsufficientBalance);
            },
        };
        let source = if from == to {
            debited
        } else {
            self.balances.get(key_to)
        };
        let credited = match source.checked_add(amount) {
            Some(v) => v,
            None => {
                return Err(Error::ArithmeticOverflow);
            },
        };
        self.balances.set(key_from, debited);
        self.balances.set(key_to, credited);
        Ok(true)
    }
}

/// One owner's balance never exceeds the balance summed over every
/// owner: every other balance record contributes a non-negative
/// amount.
pub proof fn lemma_bal_le_sum(s: Erc6909, owner: Address, id: U256)
    ensures
        s.bal(owner, id) <= s.bal_sum(id),
{
    crate::table::lemma_get_le_sum(s.balances, bal_key(owner, id));
}

/// A successful transfer preserves the total balance of the two
/// parties: what one loses the other gains, and a self-transfer moves
/// nothing.
pub proof fn lemma_transfer_preserves_pair_sum(
    pre: Erc6909,
    post: Erc6909,
    caller: Address,
    to: Address,
    id: U256,
    amount: nat,
)
    requires
        transfer_post(pre, post, caller, to, id, amount),
    ensures
        post.bal(caller, id) + post.bal(to, id) == pre.bal(caller, id) + pre.bal(to, id),
{
}

/// An approve is an absolute overwrite: immediately afterwards the
/// allowance reads exactly the approved amount, whatever it was
/// before.
pub proof fn lemma_approve_sets_allowance(
    pre: Erc6909,
    post: Erc6909,
    caller: Address,
    spender: Address,
    id: U256,
    amount: nat,
)
    requires
        approve_post(pre, post, caller, spender, id, amount),
    ensures
        post.allow(caller, spender, id) == amount,
{
}

/// A transfer-from by a blanket operator never changes any allowance;
/// one by any other caller strictly decrements the spent allowance by
/// exactly the moved amount.
pub proof fn lemma_transfer_from_allowance(
    pre: Erc6909,
    post: Erc6909,
    caller: Address,
    from: Address,
    to: Address,
    id: U256,
    amount: nat,
)
    requires
        transfer_from_post(pre, post, caller, from, to, id, amount),
    ensures
        pre.op(from, caller) ==> post.allow(from, caller, id) == pre.allow(from, caller, id),
        !pre.op(from, caller) ==> post.allow(from, caller, id) == pre.allow(from, caller, id)
            - amount,
{
}


impl crate::traits::IErc6909 for Erc6909 {
    open spec fn bal_of(&self, owner: Address, id: U256) -> nat {
        self.bal(owner, id)
    }

    open spec fn allow_of(&self, owner: Address, spender: Address, id: U256) -> nat {
        self.allow(owner, spender, id)
    }

    open spec fn op_of(&self, owner: Address, operator: Address) -> bool {
        self.op(owner, operator)
    }

    fn balance_of(&self, owner: Address, id: U256) -> (r: U256) {
        Erc6909::balance_of(self, owner, id)
    }

    fn allowance(&self, owner: Address, spender: Address, id: U256) -> (r: U256) {
        Erc6909::allowance(self, owner, spender, id)
    }

    fn is_operator(&self, owner: Address, operator: Address) -> (r: bool) {
        Erc6909::is_operator(self, owner, operator)
    }

    fn approve(&mut self, caller: Address, spender: Address, id: U256, amount: U256) -> (r: Result<
        bool,
        Error,
    >) {
        Erc6909::approve(self, caller, spender, id, amount)
    }

    fn set_operator(&mut self, caller: Address, operator: Address, approved: bool) -> (r: Result<
        bool,
        Error,
    >) {
        Erc6909::set_operator(self, caller, operator, approved)
    }

    fn transfer(&mut self, caller: Address, to: Address, id: U256, amount: U256) -> (r: Result<
        bool,
        Error,
    >) {
        Erc6909::transfer(self, caller, to, id, amount)
    }

    fn transfer_from(
        &mut self,
        caller: Address,
        from: Address,
        to: Address,
        id: U256,
        amount: U256,
    ) -> (r: Result<bool, Error>) {
        Erc6909::transfer_from(self, caller, from, to, id, amount)
    }
}

} // verus!
