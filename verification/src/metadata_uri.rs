use vstd::prelude::*;

use crate::address::Address;
use crate::error::Error;
use crate::u256::U256;

verus! {

/// One metadata entry: an identifier and its byte string.
pub struct MetaSlot {
    /// The identifier the bytes belong to.
    pub id: U256,
    /// The stored byte string.
    pub bytes: Vec<u8>,
}

/// The byte string stored for `id`: the first entry with that
/// identifier, or the empty sequence where none exists.
pub open spec fn uri_lookup(s: Seq<MetaSlot>, id: U256) -> Seq<u8>
    decreases s.len(),
{
    if s.len() == 0 {
        Seq::empty()
    } else if s[0].id == id {
        s[0].bytes@
    } else {
        uri_lookup(s.drop_first(), id)
    }
}

proof fn lemma_uri_found(s: Seq<MetaSlot>, id: U256, i: int)
    requires
        0 <= i < s.len(),
        s[i].id == id,
        forall|j: int| 0 <= j < i ==> s[j].id != id,
    ensures
        uri_lookup(s, id) == s[i].bytes@,
    decreases i,
{
    if i > 0 {
        assert(s[0].id != id);
        assert forall|j: int| 0 <= j < i - 1 implies s.drop_first()[j].id != id by {
            assert(s.drop_first()[j] == s[j + 1]);
        }
        assert(s.drop_first()[i - 1] == s[i]);
        lemma_uri_found(s.drop_first(), id, i - 1);
    }
}

proof fn lemma_uri_absent(s: Seq<MetaSlot>, id: U256)
    requires
        forall|j: int| 0 <= j < s.len() ==> s[j].id != id,
    ensures
        uri_lookup(s, id) == Seq::<u8>::empty(),
    decreases s.len(),
{
    if s.len() > 0 {
        assert forall|j: int| 0 <= j < s.drop_first().len() implies s.drop_first()[j].id != id by {
            assert(s.drop_first()[j] == s[j + 1]);
        }
        lemma_uri_absent(s.drop_first(), id);
    }
}

proof fn lemma_uri_update(s: Seq<MetaSlot>, i: int, e: MetaSlot, id2: U256)
    requires
        0 <= i < s.len(),
        e.id == s[i].id,
        forall|j: int| 0 <= j < i ==> s[j].id != s[i].id,
    ensures
        uri_lookup(s.update(i, e), e.id) == e.bytes@,
        id2 != e.id ==> uri_lookup(s.update(i, e), id2) == uri_lookup(s, id2),
    decreases i,
{
    let s2 = s.update(i, e);
    if i == 0 {
        assert(s2[0] == e);
        assert(s2.drop_first() =~= s.drop_first());
        assert(uri_lookup(s2, e.id) == e.bytes@);
    } else {
        assert(s2[0] == s[0]);
        assert(s2[0].id != e.id);
        assert(s2.drop_first() =~= s.drop_first().update(i - 1, e));
        assert(s.drop_first()[i - 1] == s[i]);
        assert forall|j: int| 0 <= j < i - 1 implies #[trigger] s.drop_first()[j].id
            != s.drop_first()[i - 1].id by {
            assert(s.drop_first()[j] == s[j + 1]);
        }
        lemma_uri_update(s.drop_first(), i - 1, e, id2);
        assert(uri_lookup(s2, e.id) == uri_lookup(s2.drop_first(), e.id));
        if id2 != e.id {
            assert(uri_lookup(s2, id2) == uri_lookup(s2.drop_first(), id2) || (s[0].id == id2
                && uri_lookup(s2, id2) == s[0].bytes@));
        }
    }
}

proof fn lemma_uri_push(s: Seq<MetaSlot>, e: MetaSlot, id2: U256)
    requires
        forall|j: int| 0 <= j < s.len() ==> s[j].id != e.id,
    ensures
        uri_lookup(s.push(e), e.id) == e.bytes@,
        id2 != e.id ==> uri_lookup(s.push(e), id2) == uri_lookup(s, id2),
    decreases s.len(),
{
    let s2 = s.push(e);
    if s.len() == 0 {
        assert(s2[0] == e);
        assert(s2.drop_first() =~= Seq::<MetaSlot>::empty());
        assert(uri_lookup(s2, e.id) == e.bytes@);
        if id2 != e.id {
            assert(uri_lookup(s2.drop_first(), id2) == Seq::<u8>::empty());
            assert(uri_lookup(s2, id2) == Seq::<u8>::empty());
        }
    } else {
        assert(s2[0] == s[0]);
        assert(s2[0].id != e.id);
        assert(s2.drop_first() =~= s.drop_first().push(e));
        assert forall|j: int| 0 <= j < s.drop_first().len() implies s.drop_first()[j].id
            != e.id by {
            assert(s.drop_first()[j] == s[j + 1]);
        }
        lemma_uri_push(s.drop_first(), e, id2);
        assert(uri_lookup(s2, e.id) == uri_lookup(s2.drop_first(), e.id));
        if id2 != e.id {
            assert(uri_lookup(s2, id2) == uri_lookup(s2.drop_first(), id2) || (s[0].id == id2
                && uri_lookup(s2, id2) == s[0].bytes@));
        }
    }
}

/// A byte-for-byte copy of `src`.
fn copy_bytes(src: &Vec<u8>) -> (r: Vec<u8>)
    ensures
        r@ == src@,
{
    let n = src.len();
    let mut out: Vec<u8> = Vec::new();
    let mut i: usize = 0;
    while i < n
        invariant
            i <= n,
            n == src@.len(),
            out@ == src@.subrange(0, i as int),
        decreases n - i,
    {
        out.push(src[i]);
        proof {
            assert(out@ =~= src@.subrange(0, i + 1));
        }
        i = i + 1;
    }
    proof {
        assert(out@ =~= src@);
    }
    out
}

/// The full effect of a successful metadata set: `id` now reads
/// exactly `bytes`, and every other identifier keeps its content.
pub open spec fn set_uri_post(
    pre: Erc6909MetadataUri,
    post: Erc6909MetadataUri,
    id: U256,
    bytes: Seq<u8>,
) -> bool {
    &&& post.uri(id) == bytes
    &&& forall|i2: U256| i2 != id ==> post.uri(i2) == pre.uri(i2)
}

/// A per-identifier metadata store: an arbitrary-length byte string
/// for each identifier, independent of balances.
///
/// Each set operation fully overwrites the previous byte string; an
/// identifier never set reads as the empty string.
pub struct Erc6909MetadataUri {
    entries: Vec<MetaSlot>,
}

impl Erc6909MetadataUri {
    /// The byte string stored for `id`, the empty sequence where none
    /// was ever stored.
    pub closed spec fn uri(self, id: U256) -> Seq<u8> {
        uri_lookup(self.entries@, id)
    }

    /// An empty store: every identifier reads as the empty string.
    pub fn new() -> (r: Erc6909MetadataUri)
        ensures
            forall|i: U256| r.uri(i) == Seq::<u8>::empty(),
    {
        Erc6909MetadataUri { entries: Vec::new() }
    }

    /// The byte string stored for `id`, byte for byte.
    pub fn token_uri(&self, id: U256) -> (r: Vec<u8>)
        ensures
            r@ == self.uri(id),
    {
        let n = self.entries.len();
        let mut i: usize = 0;
        while i < n
            invariant
                i <= n,
                n == self.entries@.len(),
                forall|j: int| 0 <= j < i ==> self.entries@[j].id != id,
            decreases n - i,
        {
            if self.entries[i].id == id {
                proof {
                    lemma_uri_found(self.entries@, id, i as int);
                }
                return copy_bytes(&self.entries[i].bytes);
            }
            i = i + 1;
        }
        proof {
            lemma_uri_absent(self.entries@, id);
        }
        Vec::new()
    }

    /// Stores `uri` as the byte string of `id`, fully overwriting any
    /// previous content. Any non-zero caller may set metadata for any
    /// identifier; the zero address is rejected and nothing changes.
    pub fn set_token_uri(&mut self, caller: Address, id: U256, uri: Vec<u8>) -> (r: Result<
        bool,
        Error,
    >)
        ensures
            r == (if caller.spec_is_zero() {
                Err::<bool, Error>(Error::InvalidApprover)
            } else {
                Ok::<bool, Error>(true)
            }),
            r is Ok ==> set_uri_post(*old(self), *final(self), id, uri@),
            r is Err ==> *final(self) == *old(self),
    {
        if caller.is_zero() {
            return Err(Error::InvalidApprover);
        }
        let ghost s0 = self.entries@;
        let slot = MetaSlot { id, bytes: uri };
        let ghost gslot = slot;
        match self.find_index(id) {
            Some(i) => {
                self.entries[i] = slot;
                proof {
                    assert(self.entries@ =~= s0.update(i as int, gslot));
                    assert forall|i2: U256| i2 != id implies uri_lookup(self.entries@, i2)
                        == uri_lookup(s0, i2) by {
                        lemma_uri_update(s0, i as int, gslot, i2);
                    }
                    lemma_uri_update(s0, i as int, gslot, id);
                }
            },
            None => {
                self.entries.push(slot);
                proof {
                    assert(self.entries@ =~= s0.push(gslot));
                    assert forall|i2: U256| i2 != id implies uri_lookup(self.entries@, i2)
                        == uri_lookup(s0, i2) by {
                        lemma_uri_push(s0, gslot, i2);
                    }
                    lemma_uri_push(s0, gslot, id);
                }
            },
        }
        Ok(true)
    }

    fn find_index(&self, id: U256) -> (r: Option<usize>)
        ensures
            match r {
                Some(i) => 0 <= i < self.entries@.len() && self.entries@[i as int].id == id
                    && forall|j: int| 0 <= j < i ==> self.entries@[j].id != id,
                None => forall|j: int| 0 <= j < self.entries@.len() ==> self.entries@[j].id != id,
            },
    {
        let n = self.entries.len();
        let mut i: usize = 0;
        while i < n
            invariant
                i <= n,
                n == self.entries@.len(),
                forall|j: int| 0 <= j < i ==> self.entries@[j].id != id,
            decreases n - i,
        {
            if self.entries[i].id == id {
                return Some(i);
            }
            i = i + 1;
        }
        None
    }
}

/// The metadata round-trip law: after a successful set of `bytes` for
/// `id`, the store reads back exactly `bytes` for `id`, byte for
/// byte, at any length, and every other identifier is untouched.
pub proof fn lemma_set_uri_round_trip(
    pre: Erc6909MetadataUri,
    post: Erc6909MetadataUri,
    id: U256,
    bytes: Seq<u8>,
)
    requires
        set_uri_post(pre, post, id, bytes),
    ensures
        post.uri(id) == bytes,
        forall|i2: U256| i2 != id ==> post.uri(i2) == pre.uri(i2),
{
}


impl crate::traits::IErc6909MetadataUri for Erc6909MetadataUri {
    open spec fn uri_of(&self, id: U256) -> Seq<u8> {
        self.uri(id)
    }

    fn token_uri(&self, id: U256) -> (r: Vec<u8>) {
        Erc6909MetadataUri::token_uri(self, id)
    }

    fn set_token_uri(&mut self, caller: Address, id: U256, uri: Vec<u8>) -> (r: Result<
        bool,
        Error,
    >) {
        Erc6909MetadataUri::set_token_uri(self, caller, id, uri)
    }
}

} // verus!
