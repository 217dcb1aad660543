use vstd::prelude::*;

use crate::address::Address;
use crate::table::{Key, Table};
use crate::u256::U256;

verus! {

/// The key of the reverse-index record of `id`.
pub open spec fn id_key(id: U256) -> Key {
    Key { a: Address::spec_zero(), b: Address::spec_zero(), c: id }
}

/// An append-only, duplicate-free registry of every identifier ever
/// recorded: the identifiers in insertion order, plus a reverse index
/// for constant-time membership checks.
///
/// The reverse index stores position-plus-one, so that the zero it
/// reads for an absent key can never be confused with a stored
/// position — identifier zero and position zero included.
pub struct Erc6909Enumerable {
    all_ids: Vec<U256>,
    index_of: Table,
}

impl Erc6909Enumerable {
    /// The recorded identifiers, in insertion order.
    pub closed spec fn ids(self) -> Seq<U256> {
        self.all_ids@
    }

    /// What the reverse index stores for `id`: its position plus one,
    /// or zero where `id` was never recorded.
    pub closed spec fn posn(self, id: U256) -> nat {
        self.index_of.spec_get(id_key(id))
    }

    /// Whether `id` has ever been recorded.
    pub open spec fn recorded(self, id: U256) -> bool {
        self.posn(id) != 0
    }

    /// The registry's internal consistency: the reverse index and the
    /// list agree in both directions, which makes the list
    /// duplicate-free. A fresh registry satisfies this and
    /// `_record_id` preserves it.
    pub open spec fn wf(self) -> bool {
        &&& forall|j: int| 0 <= j < self.ids().len() ==> self.posn(#[trigger] self.ids()[j]) == j
            + 1
        &&& forall|id: U256| #[trigger] self.posn(id) <= self.ids().len()
        &&& forall|id: U256, j: int|
            0 <= j < self.ids().len() && #[trigger] self.posn(id) == j + 1 ==> #[trigger] self.ids()[j]
                == id
    }
}

/// The full effect of recording `id`: a no-op where `id` was already
/// present, an append to the next position where it was not; either
/// way `id` is recorded afterwards and no other identifier's record
/// changes.
pub open spec fn record_post(
    pre: Erc6909Enumerable,
    post: Erc6909Enumerable,
    id: U256,
) -> bool {
    &&& pre.recorded(id) ==> post == pre
    &&& !pre.recorded(id) ==> {
        &&& post.ids() == pre.ids().push(id)
        &&& post.posn(id) == pre.ids().len() + 1
        &&& forall|id2: U256| id2 != id ==> post.posn(id2) == pre.posn(id2)
    }
    &&& post.recorded(id)
}

impl Erc6909Enumerable {
    /// An empty registry.
    pub fn new() -> (r: Erc6909Enumerable)
        ensures
            r.ids().len() == 0,
            forall|id: U256| !r.recorded(id),
            r.wf(),
    {
        Erc6909Enumerable { all_ids: Vec::new(), index_of: Table::new() }
    }

    /// Internal hook: records `id` if it was never seen before, and
    /// does nothing otherwise. An identifier, once recorded, keeps its
    /// position forever.
    pub fn _record_id(&mut self, id: U256)
        ensures
            record_post(*old(self), *final(self), id),
            old(self).wf() ==> final(self).wf(),
    {
        let key = Key { a: Address::zero(), b: Address::zero(), c: id };
        let stored = self.index_of.get(key);
        if !stored.is_zero() {
            return;
        }
        let n = self.all_ids.len();
        self.all_ids.push(id);
        self.index_of.set(key, U256::from_u128((n as u128) + 1));
        proof {
            assert(self.ids() =~= old(self).ids().push(id));
            if old(self).wf() {
                assert forall|j: int| 0 <= j < self.ids().len() implies self.posn(
                    #[trigger] self.ids()[j],
                ) == j + 1 by {
                    if j < n {
                        assert(self.ids()[j] == old(self).ids()[j]);
                        assert(old(self).posn(old(self).ids()[j]) == j + 1);
                        assert(old(self).ids()[j] != id);
                    }
                }
                assert forall|id2: U256| #[trigger] self.posn(id2) <= self.ids().len() by {
                    if id2 != id {
                        assert(self.posn(id2) == old(self).posn(id2));
                        assert(old(self).posn(id2) <= n);
                    }
                }
                assert forall|id2: U256, j: int|
                    0 <= j < self.ids().len() && #[trigger] self.posn(id2) == j + 1 implies #[trigger] self.ids()[j]
                    == id2 by {
                    if id2 != id {
                        assert(old(self).posn(id2) <= n);
                        assert(j < n);
                        assert(old(self).ids()[j] == id2);
                    }
                }
                assert(self.wf());
            }
        }
    }

    /// The number of identifiers ever recorded.
    pub fn total_ids(&self) -> (r: U256)
        ensures
            r.as_nat() == self.ids().len(),
    {
        U256::from_u128(self.all_ids.len() as u128)
    }

    /// The identifier at `index` in insertion order, or the zero
    /// identifier where `index` is out of range — a silent clamp, not
    /// a failure.
    pub fn id_by_index(&self, index: U256) -> (r: U256)
        ensures
            index.as_nat() < self.ids().len() ==> r == self.ids()[index.as_nat() as int],
            index.as_nat() >= self.ids().len() ==> r == U256::spec_zero(),
    {
        let n = self.all_ids.len();
        if index.hi != 0 {
            proof {
                assert(index.as_nat() >= crate::u256::limb_base());
            }
            return U256::zero();
        }
        if index.lo >= n as u128 {
            return U256::zero();
        }
        let idx = index.lo as usize;
        self.all_ids[idx]
    }
}

/// Recording is idempotent: recording an identifier a second time
/// leaves the registry — its count, every position, and every stored
/// identifier — exactly as the first recording left it.
pub proof fn lemma_record_idempotent(
    s0: Erc6909Enumerable,
    s1: Erc6909Enumerable,
    s2: Erc6909Enumerable,
    id: U256,
)
    requires
        record_post(s0, s1, id),
        record_post(s1, s2, id),
    ensures
        s2 == s1,
{
}

/// In a well-formed registry an identifier is recorded exactly when it
/// appears somewhere in the list.
pub proof fn lemma_recorded_iff_present(s: Erc6909Enumerable, id: U256)
    requires
        s.wf(),
    ensures
        s.recorded(id) == exists|j: int| 0 <= j < s.ids().len() && s.ids()[j] == id,
{
    if s.recorded(id) {
        assert(s.posn(id) <= s.ids().len());
        let j = s.posn(id) - 1;
        assert(s.ids()[j] == id);
    }
    if exists|j: int| 0 <= j < s.ids().len() && s.ids()[j] == id {
        let j = choose|j: int| 0 <= j < s.ids().len() && s.ids()[j] == id;
        assert(s.posn(s.ids()[j]) == j + 1);
    }
}

/// A well-formed registry never lists the same identifier twice.
pub proof fn lemma_ids_distinct(s: Erc6909Enumerable, i: int, j: int)
    requires
        s.wf(),
        0 <= i < s.ids().len(),
        0 <= j < s.ids().len(),
        i != j,
    ensures
        s.ids()[i] != s.ids()[j],
{
    assert(s.posn(s.ids()[i]) == i + 1);
    assert(s.posn(s.ids()[j]) == j + 1);
}


impl crate::traits::IErc6909Enumerable for Erc6909Enumerable {
    open spec fn ids_of(&self) -> Seq<U256> {
        self.ids()
    }

    fn total_ids(&self) -> (r: U256) {
        Erc6909Enumerable::total_ids(self)
    }

    fn id_by_index(&self, index: U256) -> (r: U256) {
        Erc6909Enumerable::id_by_index(self, index)
    }
}

} // verus!
