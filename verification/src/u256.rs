use vstd::prelude::*;

verus! {

/// A 256-bit unsigned integer, held as two 128-bit limbs. It names
/// both token identifiers and token amounts.
#[derive(Debug, Clone, Copy, PartialEq, Eq, Structural)]
pub struct U256 {
    /// The low 128 bits.
    pub lo: u128,
    /// The high 128 bits.
    pub hi: u128,
}

/// The weight of the high limb: 2^128.
pub open spec fn limb_base() -> nat {
    0x100000000000000000000000000000000nat
}

/// The largest value a 256-bit amount can hold: 2^256 - 1.
pub open spec fn u256_max() -> nat {
    0xffffffffffffffffffffffffffffffffffffffffffffffffffffffffffffffffnat
}

impl U256 {
    /// The mathematical value of the two limbs.
    pub open spec fn as_nat(self) -> nat {
        (self.lo + self.hi * limb_base()) as nat
    }

    /// The value zero, as a specification value.
    pub open spec fn spec_zero() -> U256 {
        U256 { lo: 0, hi: 0 }
    }

    /// The value zero.
    pub fn zero() -> (r: U256)
        ensures
            r == U256::spec_zero(),
            r.as_nat() == 0,
    {
        U256 { lo: 0, hi: 0 }
    }

    /// The value one.
    pub fn one() -> (r: U256)
        ensures
            r.as_nat() == 1,
    {
        U256 { lo: 1, hi: 0 }
    }

    /// A value from its two limbs.
    pub fn new(hi: u128, lo: u128) -> (r: U256)
        ensures
            r.hi == hi,
            r.lo == lo,
            r.as_nat() == lo + hi * limb_base(),
    {
        U256 { lo, hi }
    }

    /// A value that fits in 128 bits.
    pub fn from_u128(x: u128) -> (r: U256)
        ensures
            r.as_nat() == x,
    {
        U256 { lo: x, hi: 0 }
    }

    /// A value that fits in 64 bits.
    pub fn from_u64(x: u64) -> (r: U256)
        ensures
            r.as_nat() == x,
    {
        U256 { lo: x as u128, hi: 0 }
    }

    /// Tests for zero.
    pub fn is_zero(&self) -> (b: bool)
        ensures
            b == (self.as_nat() == 0),
    {
        self.lo == 0 && self.hi == 0
    }

    /// Addition, rejected with `None` when the sum does not fit in 256
    /// bits.
    pub fn checked_add(self, other: U256) -> (r: Option<U256>)
        ensures
            self.as_nat() + other.as_nat() <= u256_max() ==> (r is Some && r->Some_0.as_nat()
                == self.as_nat() + other.as_nat()),
            self.as_nat() + other.as_nat() > u256_max() ==> r is None,
    {
        let (lo, carry): (u128, u128) = if self.lo <= u128::MAX - other.lo {
            (self.lo + other.lo, 0)
        } else {
            ((self.lo - (u128::MAX - other.lo)) - 1, 1)
        };
        proof {
            assert(self.lo + other.lo == lo + carry * limb_base());
        }
        if self.hi <= u128::MAX - other.hi {
            let h = self.hi + other.hi;
            if carry == 1 && h == u128::MAX {
                proof {
                    assert(self.as_nat() + other.as_nat() == lo + (h + 1) * limb_base());
                    assert((h + 1) * limb_base() == u256_max() + 1);
                }
                None
            } else {
                proof {
                    assert(self.as_nat() + other.as_nat() == lo + (h + carry) * limb_base());
                }
                Some(U256 { lo, hi: h + carry })
            }
        } else {
            proof {
                assert(self.as_nat() + other.as_nat() >= (self.hi + other.hi) * limb_base());
                assert((self.hi + other.hi) * limb_base() >= (u128::MAX + 1) * limb_base());
                assert((u128::MAX + 1) * limb_base() == u256_max() + 1);
            }
            None
        }
    }

    /// Subtraction, rejected with `None` when the result would be
    /// negative.
    pub fn checked_sub(self, other: U256) -> (r: Option<U256>)
        ensures
            other.as_nat() <= self.as_nat() ==> (r is Some && r->Some_0.as_nat() == self.as_nat()
                - other.as_nat()),
            other.as_nat() > self.as_nat() ==> r is None,
    {
        let (lo, borrow): (u128, u128) = if self.lo >= other.lo {
            (self.lo - other.lo, 0)
        } else {
            (((u128::MAX - other.lo) + self.lo) + 1, 1)
        };
        if self.hi >= other.hi && self.hi - other.hi >= borrow {
            Some(U256 { lo, hi: (self.hi - other.hi) - borrow })
        } else {
            None
        }
    }

    /// Strict comparison of the mathematical values.
    pub fn lt(self, other: U256) -> (b: bool)
        ensures
            b == (self.as_nat() < other.as_nat()),
    {
        if self.hi != other.hi {
            self.hi < other.hi
        } else {
            self.lo < other.lo
        }
    }
}

} // verus!
