use vstd::prelude::*;

verus! {

/// A 20-byte account identifier, held as plain integers: the high 4
/// bytes in `hi` and the low 16 bytes in `lo`.
///
/// The all-zero address is reserved as an invalid sentinel: it is never
/// a valid owner, spender, operator, or caller, and every mutating
/// ledger operation rejects it.
#[derive(Debug, Clone, Copy, PartialEq, Eq, Structural)]
pub struct Address {
    /// The high 4 bytes of the account identifier.
    pub hi: u32,
    /// The low 16 bytes of the account identifier.
    pub lo: u128,
}

impl Address {
    /// The reserved all-zero address, as a specification value.
    pub open spec fn spec_zero() -> Address {
        Address { hi: 0, lo: 0 }
    }

    /// Whether this is the reserved all-zero address.
    pub open spec fn spec_is_zero(self) -> bool {
        self == Address::spec_zero()
    }

    /// The reserved all-zero address.
    pub fn zero() -> (r: Address)
        ensures
            r == Address::spec_zero(),
    {
        Address { hi: 0, lo: 0 }
    }

    /// An address from its high 4 bytes and low 16 bytes.
    pub fn new(hi: u32, lo: u128) -> (r: Address)
        ensures
            r.hi == hi,
            r.lo == lo,
    {
        Address { hi, lo }
    }

    /// Tests for the reserved all-zero address.
    pub fn is_zero(&self) -> (b: bool)
        ensures
            b == self.spec_is_zero(),
    {
        self.hi == 0 && self.lo == 0
    }
}

} // verus!
