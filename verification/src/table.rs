use vstd::prelude::*;

use crate::address::Address;
use crate::u256::U256;

verus! {

/// The key of one ledger record: up to two addresses and one
/// identifier. A region that needs fewer parts leaves the spare parts
/// zero.
#[derive(Debug, Clone, Copy, PartialEq, Eq, Structural)]
pub struct Key {
    /// The first address part (an owner).
    pub a: Address,
    /// The second address part (a spender or operator).
    pub b: Address,
    /// The identifier part.
    pub c: U256,
}

/// One stored record: a key and its 256-bit value.
#[derive(Debug, Clone, Copy, PartialEq, Eq, Structural)]
pub struct Slot {
    /// The record's key.
    pub key: Key,
    /// The record's value.
    pub val: U256,
}

/// The value stored under `k`: the first record with that key, or zero
/// where none exists. An absent key is indistinguishable from a stored
/// zero.
pub open spec fn lookup(s: Seq<Slot>, k: Key) -> nat
    decreases s.len(),
{
    if s.len() == 0 {
        0
    } else if s[0].key == k {
        s[0].val.as_nat()
    } else {
        lookup(s.drop_first(), k)
    }
}

/// The sum of the values of every record whose identifier part is `c`.
pub open spec fn sum_for(s: Seq<Slot>, c: U256) -> nat
    decreases s.len(),
{
    if s.len() == 0 {
        0
    } else {
        (if s[0].key.c == c {
            s[0].val.as_nat()
        } else {
            0
        }) + sum_for(s.drop_first(), c)
    }
}

proof fn lemma_lookup_found(s: Seq<Slot>, k: Key, i: int)
    requires
        0 <= i < s.len(),
        s[i].key == k,
        forall|j: int| 0 <= j < i ==> s[j].key != k,
    ensures
        lookup(s, k) == s[i].val.as_nat(),
    decreases i,
{
    if i > 0 {
        assert(s[0].key != k);
        assert forall|j: int| 0 <= j < i - 1 implies s.drop_first()[j].key != k by {
            assert(s.drop_first()[j] == s[j + 1]);
        }
        assert(s.drop_first()[i - 1] == s[i]);
        lemma_lookup_found(s.drop_first(), k, i - 1);
    }
}

proof fn lemma_lookup_absent(s: Seq<Slot>, k: Key)
    requires
        forall|j: int| 0 <= j < s.len() ==> s[j].key != k,
    ensures
        lookup(s, k) == 0,
    decreases s.len(),
{
    if s.len() > 0 {
        assert forall|j: int| 0 <= j < s.drop_first().len() implies s.drop_first()[j].key != k by {
            assert(s.drop_first()[j] == s[j + 1]);
        }
        lemma_lookup_absent(s.drop_first(), k);
    }
}

proof fn lemma_lookup_update_same(s: Seq<Slot>, i: int, v: U256)
    requires
        0 <= i < s.len(),
        forall|j: int| 0 <= j < i ==> s[j].key != s[i].key,
    ensures
        lookup(s.update(i, Slot { key: s[i].key, val: v }), s[i].key) == v.as_nat(),
    decreases i,
{
    let s2 = s.update(i, Slot { key: s[i].key, val: v });
    if i == 0 {
        assert(s2[0].key == s[i].key);
    } else {
        assert(s2[0] == s[0]);
        assert(s2[0].key != s[i].key);
        assert(s2.drop_first() =~= s.drop_first().update(i - 1, Slot {
            key: s[i].key,
            val: v,
        }));
        assert(s.drop_first()[i - 1] == s[i]);
        assert forall|j: int| 0 <= j < i - 1 implies #[trigger] s.drop_first()[j].key
            != s.drop_first()[i - 1].key by {
            assert(s.drop_first()[j] == s[j + 1]);
        }
        lemma_lookup_update_same(s.drop_first(), i - 1, v);
    }
}

proof fn lemma_lookup_update_other(s: Seq<Slot>, i: int, v: U256, k2: Key)
    requires
        0 <= i < s.len(),
        k2 != s[i].key,
    ensures
        lookup(s.update(i, Slot { key: s[i].key, val: v }), k2) == lookup(s, k2),
    decreases i,
{
    let s2 = s.update(i, Slot { key: s[i].key, val: v });
    if i == 0 {
        assert(s2[0] == Slot { key: s[0].key, val: v });
        assert(s2[0].key != k2);
        assert(s[0].key != k2);
        assert(s2.drop_first() =~= s.drop_first());
    } else {
        assert(s2[0] == s[0]);
        assert(s2.drop_first() =~= s.drop_first().update(i - 1, Slot {
            key: s[i].key,
            val: v,
        }));
        assert(s.drop_first()[i - 1] == s[i]);
        lemma_lookup_update_other(s.drop_first(), i - 1, v, k2);
    }
}

proof fn lemma_lookup_push_same(s: Seq<Slot>, e: Slot)
    requires
        forall|j: int| 0 <= j < s.len() ==> s[j].key != e.key,
    ensures
        lookup(s.push(e), e.key) == e.val.as_nat(),
    decreases s.len(),
{
    let s2 = s.push(e);
    if s.len() == 0 {
        assert(s2[0] == e);
    } else {
        assert(s2[0] == s[0]);
        assert(s2[0].key != e.key);
        assert(s2.drop_first() =~= s.drop_first().push(e));
        assert forall|j: int| 0 <= j < s.drop_first().len() implies s.drop_first()[j].key
            != e.key by {
            assert(s.drop_first()[j] == s[j + 1]);
        }
        lemma_lookup_push_same(s.drop_first(), e);
    }
}

proof fn lemma_lookup_push_other(s: Seq<Slot>, e: Slot, k2: Key)
    requires
        k2 != e.key,
    ensures
        lookup(s.push(e), k2) == lookup(s, k2),
    decreases s.len(),
{
    let s2 = s.push(e);
    if s.len() == 0 {
        assert(s2[0] == e);
        assert(s2.drop_first() =~= Seq::<Slot>::empty());
        assert(lookup(s2.drop_first(), k2) == 0);
        assert(lookup(s2, k2) == 0);
    } else {
        assert(s2[0] == s[0]);
        assert(s2.drop_first() =~= s.drop_first().push(e));
        lemma_lookup_push_other(s.drop_first(), e, k2);
        assert(lookup(s2, k2) == lookup(s2.drop_first(), k2) || (s[0].key == k2 && lookup(s2, k2)
            == s[0].val.as_nat()));
    }
}

proof fn lemma_sum_update(s: Seq<Slot>, i: int, v: U256, c: U256)
    requires
        0 <= i < s.len(),
    ensures
        sum_for(s.update(i, Slot { key: s[i].key, val: v }), c) + (if s[i].key.c == c {
            s[i].val.as_nat()
        } else {
            0
        }) == sum_for(s, c) + (if s[i].key.c == c {
            v.as_nat()
        } else {
            0
        }),
    decreases i,
{
    let s2 = s.update(i, Slot { key: s[i].key, val: v });
    if i == 0 {
        assert(s2[0] == Slot { key: s[0].key, val: v });
        assert(s2.drop_first() =~= s.drop_first());
    } else {
        assert(s2[0] == s[0]);
        assert(s2.drop_first() =~= s.drop_first().update(i - 1, Slot {
            key: s[i].key,
            val: v,
        }));
        assert(s.drop_first()[i - 1] == s[i]);
        lemma_sum_update(s.drop_first(), i - 1, v, c);
    }
}

proof fn lemma_sum_push(s: Seq<Slot>, e: Slot, c: U256)
    ensures
        sum_for(s.push(e), c) == sum_for(s, c) + (if e.key.c == c {
            e.val.as_nat()
        } else {
            0
        }),
    decreases s.len(),
{
    let s2 = s.push(e);
    if s.len() == 0 {
        assert(s2[0] == e);
        assert(s2.drop_first() =~= Seq::<Slot>::empty());
        assert(sum_for(s2.drop_first(), c) == 0);
        assert(sum_for(s2, c) == (if e.key.c == c {
            e.val.as_nat()
        } else {
            0
        }) + sum_for(s2.drop_first(), c));
    } else {
        assert(s2[0] == s[0]);
        assert(s2.drop_first() =~= s.drop_first().push(e));
        lemma_sum_push(s.drop_first(), e, c);
        assert(sum_for(s2, c) == (if s[0].key.c == c {
            s[0].val.as_nat()
        } else {
            0
        }) + sum_for(s2.drop_first(), c));
    }
}

proof fn lemma_lookup_le_sum(s: Seq<Slot>, k: Key)
    ensures
        lookup(s, k) <= sum_for(s, k.c),
    decreases s.len(),
{
    if s.len() > 0 {
        lemma_lookup_le_sum(s.drop_first(), k);
    }
}

/// A key-value region of the ledger's storage: a list of records,
/// looked up by key, where an absent key reads as zero.
pub struct Table {
    entries: Vec<Slot>,
}

impl Table {
    /// The value stored under `k`, zero where none was stored.
    pub closed spec fn spec_get(self, k: Key) -> nat {
        lookup(self.entries@, k)
    }

    /// The sum of the values of every record whose identifier part is
    /// `c`.
    pub closed spec fn spec_sum(self, c: U256) -> nat {
        lookup_sum(self, c)
    }

    /// An empty region: every key reads as zero.
    pub fn new() -> (t: Table)
        ensures
            forall|k: Key| t.spec_get(k) == 0,
            forall|c: U256| t.spec_sum(c) == 0,
    {
        Table { entries: Vec::new() }
    }

    fn find(&self, k: Key) -> (r: Option<usize>)
        ensures
            match r {
                Some(i) => 0 <= i < self.entries@.len() && self.entries@[i as int].key == k
                    && forall|j: int| 0 <= j < i ==> self.entries@[j].key != k,
                None => forall|j: int| 0 <= j < self.entries@.len() ==> self.entries@[j].key != k,
            },
    {
        let n = self.entries.len();
        let mut i: usize = 0;
        while i < n
            invariant
                i <= n,
                n == self.entries@.len(),
                forall|j: int| 0 <= j < i ==> self.entries@[j].key != k,
            decreases n - i,
        {
            if self.entries[i].key == k {
                return Some(i);
            }
            i = i + 1;
        }
        None
    }

    /// The value stored under `k`.
    pub fn get(&self, k: Key) -> (v: U256)
        ensures
            v.as_nat() == self.spec_get(k),
    {
        match self.find(k) {
            Some(i) => {
                proof {
                    lemma_lookup_found(self.entries@, k, i as int);
                }
                self.entries[i].val
            },
            None => {
                proof {
                    lemma_lookup_absent(self.entries@, k);
                }
                U256::zero()
            },
        }
    }

    /// Stores `v` under `k`, overwriting any previous value. Every
    /// other key keeps its value, and the per-identifier sum changes by
    /// exactly the difference between the new and the old value.
    pub fn set(&mut self, k: Key, v: U256)
        ensures
            final(self).spec_get(k) == v.as_nat(),
            forall|k2: Key| k2 != k ==> final(self).spec_get(k2) == old(self).spec_get(k2),
            forall|c: U256|
                final(self).spec_sum(c) + (if k.c == c {
                    old(self).spec_get(k)
                } else {
                    0
                }) == old(self).spec_sum(c) + (if k.c == c {
                    v.as_nat()
                } else {
                    0
                }),
    {
        let ghost s0 = self.entries@;
        let slot = Slot { key: k, val: v };
        match self.find(k) {
            Some(i) => {
                self.entries[i] = slot;
                proof {
                    assert(self.entries@ =~= s0.update(i as int, Slot {
                        key: s0[i as int].key,
                        val: v,
                    }));
                    lemma_lookup_found(s0, k, i as int);
                    lemma_lookup_update_same(s0, i as int, v);
                    assert forall|k2: Key| k2 != k implies lookup(self.entries@, k2) == lookup(
                        s0,
                        k2,
                    ) by {
                        lemma_lookup_update_other(s0, i as int, v, k2);
                    }
                    assert forall|c: U256|
                        self.spec_sum(c) + (if k.c == c {
                            old(self).spec_get(k)
                        } else {
                            0
                        }) == old(self).spec_sum(c) + (if k.c == c {
                            v.as_nat()
                        } else {
                            0
                        }) by {
                        lemma_sum_update(s0, i as int, v, c);
                    }
                }
            },
            None => {
                self.entries.push(slot);
                proof {
                    assert(self.entries@ =~= s0.push(slot));
                    lemma_lookup_absent(s0, k);
                    lemma_lookup_push_same(s0, slot);
                    assert forall|k2: Key| k2 != k implies lookup(self.entries@, k2) == lookup(
                        s0,
                        k2,
                    ) by {
                        lemma_lookup_push_other(s0, slot, k2);
                    }
                    assert forall|c: U256|
                        self.spec_sum(c) + (if k.c == c {
                            old(self).spec_get(k)
                        } else {
                            0
                        }) == old(self).spec_sum(c) + (if k.c == c {
                            v.as_nat()
                        } else {
                            0
                        }) by {
                        lemma_sum_push(s0, slot, c);
                    }
                }
            },
        }
    }
}

/// The sum of the values of every record of `t` whose identifier part
/// is `c`.
spec fn lookup_sum(t: Table, c: U256) -> nat {
    sum_for(t.entries@, c)
}

/// The stored value under any key never exceeds the sum over its
/// identifier: every other record contributes a non-negative amount.
pub proof fn lemma_get_le_sum(t: Table, k: Key)
    ensures
        t.spec_get(k) <= t.spec_sum(k.c),
{
    lemma_lookup_le_sum(t.entries@, k);
}

} // verus!
